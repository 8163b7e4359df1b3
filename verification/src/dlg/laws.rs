use vstd::prelude::*;

use crate::dlg::filedlg::MyMode;
use crate::dlg::filedlg::call_error;
use crate::dlg::session::{
    accepts, call_name, dialog_options, event_code, next_state, session_wf, DlgActionView,
    DlgEventView, SessionView, ShowStage,
};
use crate::text::{utf16_decode_lossy, wide_until_nul};

verus! {

/// A session after a run of answers, and every action it asked for on the way.
pub open spec fn run(s: SessionView, events: Seq<DlgEventView>) -> (SessionView, Seq<DlgActionView>)
    decreases events.len(),
{
    if events.len() == 0 {
        (s, Seq::empty())
    } else {
        let (s1, a) = next_state(s, events[0]);
        let (s2, acts) = run(s1, events.drop_first());
        (s2, seq![a] + acts)
    }
}

/// The text of a display name: its UTF-16 units up to the first NUL, decoded.
pub open spec fn name_text(w: Seq<u16>) -> Seq<char> {
    utf16_decode_lossy(wide_until_nul(w))
}

/// The texts of several display names, in order.
pub open spec fn names_text(names: Seq<Seq<u16>>) -> Seq<Seq<char>> {
    Seq::new(names.len(), |k: int| name_text(names[k]))
}

/// The answers of a caller that asks each item for its name and gets these
/// names back, every call succeeding.
pub open spec fn item_events(names: Seq<Seq<u16>>) -> Seq<DlgEventView>
    decreases names.len(),
{
    if names.len() == 0 {
        Seq::empty()
    } else {
        seq![DlgEventView::Status(0), DlgEventView::DisplayName(0, names[0])] + item_events(
            names.drop_first(),
        )
    }
}

/// What a multiple-selection dialog asks for from item `i` on, of `n` items:
/// each item's name, then the next item, and after the last one, `Release`.
pub open spec fn item_actions(i: nat, n: nat) -> Seq<DlgActionView>
    decreases n - i,
{
    if i >= n {
        Seq::empty()
    } else {
        seq![
            DlgActionView::GetDisplayName,
            if i + 1 < n {
                DlgActionView::GetItemAt((i + 1) as u32)
            } else {
                DlgActionView::Release
            },
        ] + item_actions(i + 1, n)
    }
}

/// Running two runs of answers one after the other is running them together.
pub proof fn lemma_run_concat(s: SessionView, a: Seq<DlgEventView>, b: Seq<DlgEventView>)
    ensures
        run(s, a + b) == (run(run(s, a).0, b).0, run(s, a).1 + run(run(s, a).0, b).1),
    decreases a.len(),
{
    if a.len() == 0 {
        assert(a + b =~= b);
        assert(run(s, a).1 + run(s, b).1 =~= run(s, b).1);
    } else {
        let s1 = next_state(s, a[0]).0;
        lemma_run_concat(s1, a.drop_first(), b);
        assert((a + b).drop_first() =~= a.drop_first() + b);
        assert((a + b)[0] == a[0]);
        let x = next_state(s, a[0]).1;
        assert(seq![x] + (run(s1, a.drop_first()).1 + run(run(s1, a.drop_first()).0, b).1) =~= (
        seq![x] + run(s1, a.drop_first()).1) + run(run(s1, a.drop_first()).0, b).1);
    }
}

/// Items are asked for in order, each once, and every name comes back as a
/// path: from item `index` of `count`, answering each item's name ends the
/// loop with those names appended to the paths, in order, and then `Release`.
pub proof fn law_items_collected_in_order(s: SessionView, names: Seq<Seq<u16>>)
    requires
        session_wf(s),
        s.stage matches ShowStage::GettingItem { index, count } && names.len() + index == count,
    ensures
        ({
            let (index, count) = (s.stage->GettingItem_index, s.stage->GettingItem_count);
            let (s2, acts) = run(s, item_events(names));
            &&& s2 == SessionView { stage: ShowStage::CleaningUp, paths: s.paths + names_text(names), ..s }
            &&& acts == item_actions(index as nat, count as nat)
        }),
    decreases names.len(),
{
    let index = s.stage->GettingItem_index;
    let count = s.stage->GettingItem_count;
    let ev = item_events(names);
    let w = names[0];
    let rest = names.drop_first();
    assert(ev[0] == DlgEventView::Status(0));
    assert(ev.drop_first()[0] == DlgEventView::DisplayName(0, w));
    assert(ev.drop_first().drop_first() =~= item_events(rest));
    let s1 = next_state(s, ev[0]).0;
    assert(s1 == SessionView { stage: ShowStage::GettingItemName { index, count }, ..s });
    let a1 = next_state(s, ev[0]).1;
    let s2 = next_state(s1, DlgEventView::DisplayName(0, w)).0;
    let a2 = next_state(s1, DlgEventView::DisplayName(0, w)).1;
    let e1 = ev.drop_first();
    let e2 = e1.drop_first();
    assert(a1 == DlgActionView::GetDisplayName);
    assert(run(s, ev) == (run(s1, e1).0, seq![a1] + run(s1, e1).1));
    assert(run(s1, e1) == (run(s2, e2).0, seq![a2] + run(s2, e2).1));
    assert(item_actions(index as nat, count as nat) == seq![
        DlgActionView::GetDisplayName,
        a2,
    ] + item_actions((index + 1) as nat, count as nat));
    assert(run(s, ev).1 =~= seq![DlgActionView::GetDisplayName, a2] + run(s2, e2).1);
    let p2 = s.paths.push(name_text(w));
    if index + 1 < count {
        assert(s2 == SessionView {
            stage: ShowStage::GettingItem { index: (index + 1) as u32, count },
            paths: p2,
            ..s
        });
        law_items_collected_in_order(s2, rest);
        assert(p2 + names_text(rest) =~= s.paths + names_text(names));
    } else {
        assert(rest.len() == 0);
        assert(s2 == SessionView { stage: ShowStage::CleaningUp, paths: p2, ..s });
        assert(item_events(rest) =~= Seq::<DlgEventView>::empty());
        assert(p2 =~= s.paths + names_text(names));
        assert(item_actions((index + 1) as nat, count as nat) =~= Seq::<DlgActionView>::empty());
    }
    assert(run(s, ev).1 =~= item_actions(index as nat, count as nat));
}

/// After `Release`, every session finishes successfully with exactly the
/// paths it collected, whatever its mode.
pub proof fn law_release_returns_collected_paths(s: SessionView)
    requires
        s.stage == ShowStage::CleaningUp,
    ensures
        next_state(s, DlgEventView::Proceed).1 == DlgActionView::Finish(Ok(s.paths)),
        next_state(s, DlgEventView::Proceed).0.stage == ShowStage::Finished,
{
}

/// A single-selection dialog (open file, folder, save) that is shown asks for
/// its result, then the result's name, then releases the dialog, and finishes
/// with exactly that one name as its path.
pub proof fn law_single_selection_returns_the_chosen_path(
    s: SessionView,
    shown: i32,
    got: i32,
    named: i32,
    w: Seq<u16>,
)
    requires
        session_wf(s),
        s.stage == ShowStage::Showing,
        s.mode != MyMode::OpenFiles,
        shown >= 0,
        got >= 0,
        named >= 0,
    ensures
        ({
            let (s1, a1) = next_state(s, DlgEventView::Status(shown));
            let (s2, a2) = next_state(s1, DlgEventView::Status(got));
            let (s3, a3) = next_state(s2, DlgEventView::DisplayName(named, w));
            let (s4, a4) = next_state(s3, DlgEventView::Proceed);
            &&& a1 == DlgActionView::GetResult
            &&& a2 == DlgActionView::GetDisplayName
            &&& a3 == DlgActionView::Release
            &&& a4 == DlgActionView::Finish(Ok(seq![name_text(w)]))
            &&& s4.stage == ShowStage::Finished
        }),
{
    let s3 = next_state(
        next_state(next_state(s, DlgEventView::Status(shown)).0, DlgEventView::Status(got)).0,
        DlgEventView::DisplayName(named, w),
    ).0;
    assert(s3.paths =~= seq![name_text(w)]);
}

/// A successful item count starts the item loop at the first item when there
/// is at least one item, and releases the dialog only when there is none.
pub proof fn law_count_starts_at_first_item(s: SessionView, hr: i32, n: u32)
    requires
        session_wf(s),
        s.stage == ShowStage::GettingCount,
        hr >= 0,
    ensures
        n >= 1 ==> next_state(s, DlgEventView::Count(hr, n)).1 == DlgActionView::GetItemAt(0),
        n >= 1 ==> next_state(s, DlgEventView::Count(hr, n)).0.stage == (ShowStage::GettingItem {
            index: 0,
            count: n,
        }),
        n == 0 ==> next_state(s, DlgEventView::Count(hr, n)).1 == DlgActionView::Release,
        n == 0 ==> next_state(next_state(s, DlgEventView::Count(hr, n)).0, DlgEventView::Proceed).1
            == DlgActionView::Finish(Ok(Seq::<Seq<char>>::empty())),
{
    assert(s.paths =~= Seq::<Seq<char>>::empty());
}

/// After an item's name comes back and more items remain, the next item is
/// the one after it.
pub proof fn law_next_item_follows(s: SessionView, hr: i32, w: Seq<u16>)
    requires
        session_wf(s),
        s.stage matches ShowStage::GettingItemName { index, count } && index + 1 < count,
        hr >= 0,
    ensures
        next_state(s, DlgEventView::DisplayName(hr, w)).1 == DlgActionView::GetItemAt(
            (s.stage->GettingItemName_index + 1) as u32,
        ),
        next_state(s, DlgEventView::DisplayName(hr, w)).0.stage == (ShowStage::GettingItem {
            index: (s.stage->GettingItemName_index + 1) as u32,
            count: s.stage->GettingItemName_count,
        }),
        next_state(s, DlgEventView::DisplayName(hr, w)).0.paths == s.paths.push(name_text(w)),
{
}

/// A multiple selection of `n >= 1` items asks for items 0, 1, ..., n-1 in
/// order, each once, and finishes with exactly their `n` names, in order.
pub proof fn law_multi_selection_returns_every_item(s: SessionView, names: Seq<Seq<u16>>)
    requires
        session_wf(s),
        s.stage == ShowStage::GettingCount,
        1 <= names.len() <= u32::MAX,
    ensures
        ({
            let n = names.len();
            let events = seq![DlgEventView::Count(0, n as u32)] + item_events(names) + seq![
                DlgEventView::Proceed,
            ];
            let acts = run(s, events).1;
            &&& acts == seq![DlgActionView::GetItemAt(0)] + item_actions(0, n) + seq![
                DlgActionView::Finish(Ok(names_text(names))),
            ]
            &&& run(s, events).0.stage == ShowStage::Finished
        }),
{
    let n = names.len();
    let c = seq![DlgEventView::Count(0, n as u32)];
    let ie = item_events(names);
    let p = seq![DlgEventView::Proceed];
    lemma_run_concat(s, c + ie, p);
    lemma_run_concat(s, c, ie);
    let s1 = next_state(s, c[0]).0;
    assert(c.drop_first() =~= Seq::<DlgEventView>::empty());
    assert(c.len() == 1 && c[0] == DlgEventView::Count(0, n as u32));
    assert(next_state(s, c[0]).1 == DlgActionView::GetItemAt(0));
    assert(run(s1, c.drop_first()) == (s1, Seq::<DlgActionView>::empty()));
    assert(run(s, c) == (s1, seq![DlgActionView::GetItemAt(0)] + Seq::<DlgActionView>::empty()));
    assert(run(s, c).1 =~= seq![DlgActionView::GetItemAt(0)]);
    assert(s.paths =~= Seq::<Seq<char>>::empty());
    law_items_collected_in_order(s1, names);
    let s2 = run(s1, ie).0;
    assert(s2.paths =~= names_text(names));
    assert(p.drop_first() =~= Seq::<DlgEventView>::empty());
    let fin = next_state(s2, DlgEventView::Proceed);
    assert(p.len() == 1 && p[0] == DlgEventView::Proceed);
    assert(run(fin.0, p.drop_first()) == (fin.0, Seq::<DlgActionView>::empty()));
    assert(run(s2, p) == (fin.0, seq![fin.1] + Seq::<DlgActionView>::empty()));
    assert(run(s2, p).1 =~= seq![DlgActionView::Finish(Ok(names_text(names)))]);
}

/// The option bits of each dialog, as the Win32 API numbers them: an open
/// dialog for one file wants an existing file (0x1000), one for several files
/// also allows multiple selection (0x200), a folder picker picks folders
/// (0x20) and a save dialog asks before overwriting (0x2).
pub proof fn law_dialog_options_values(mode: MyMode)
    ensures
        dialog_options(mode) == match mode {
            MyMode::OpenFile => 0x1000u32,
            MyMode::OpenFiles => 0x1200u32,
            MyMode::OpenDir => 0x20u32,
            MyMode::SaveFile => 0x2u32,
        },
{
    assert(0x1000u32 | 0x200u32 == 0x1200u32) by (bit_vector);
}

/// Every call that fails after the session has started, except `Show` (whose
/// failure means the user cancelled), ends the session at once with an error
/// that carries the failed code and names that call.
pub proof fn law_every_failed_call_ends_session(s: SessionView, e: DlgEventView)
    requires
        accepts(s.stage, e),
        event_code(e) < 0,
        s.stage != ShowStage::Showing,
    ensures
        next_state(s, e).1 == DlgActionView::Finish(Err(call_error(call_name(s.stage), event_code(e)))),
        next_state(s, e).0.stage == ShowStage::Finished,
{
}

/// The call that each error names.
pub proof fn law_errors_name_their_call()
    ensures
        call_name(ShowStage::Initializing) == "CoInitializeEx"@,
        call_name(ShowStage::Creating) == "CoCreateInstance"@,
        call_name(ShowStage::SettingOptions) == "fd.SetOptions"@,
        call_name(ShowStage::SettingFileTypes) == "fd.SetFileTypes"@,
        call_name(ShowStage::SettingDefaultExtension) == "fd.SetDefaultExtension"@,
        call_name(ShowStage::SettingTitle) == "fd.SetTitle"@,
        call_name(ShowStage::GettingResults) == "fd.GetResults"@,
        call_name(ShowStage::GettingCount) == "sia.GetCount"@,
        forall|i: u32, n: u32| call_name(ShowStage::GettingItem { index: i, count: n }) == "sia.GetItemAt"@,
        forall|i: u32, n: u32|
            call_name(ShowStage::GettingItemName { index: i, count: n }) == "si.GetDisplayName"@,
        call_name(ShowStage::GettingResult) == "fd.GetResult"@,
        call_name(ShowStage::GettingResultName) == "si.GetDisplayName"@,
{
}

/// A multiple-selection dialog that is shown asks for its item array and then
/// for the number of items in it.
pub proof fn law_multi_selection_opening(s: SessionView, shown: i32, got: i32)
    requires
        session_wf(s),
        s.stage == ShowStage::Showing,
        s.mode == MyMode::OpenFiles,
        shown >= 0,
        got >= 0,
    ensures
        ({
            let (s1, a1) = next_state(s, DlgEventView::Status(shown));
            let (s2, a2) = next_state(s1, DlgEventView::Status(got));
            &&& a1 == DlgActionView::GetResults
            &&& a2 == DlgActionView::GetCount
            &&& s2.stage == ShowStage::GettingCount
            &&& s2.paths.len() == 0
        }),
{
}

} // verus!
