//! Settings-screen logic that does not draw anything: when edited settings are
//! saved, and how setup sections are titled.

use std::time::{Duration, Instant};

use vstd::prelude::*;

use crate::intiface::DiscoveredToy;
use crate::text::{contains_string, string_views};

verus! {

#[verifier::external_type_specification]
#[verifier::external_body]
pub struct ExInstant(Instant);

/// `Instant::now` reads the clock; nothing is claimed of the instant it returns.
pub assume_specification[ Instant::now ]() -> Instant;

/// The time from `earlier` to `later` (zero when `earlier` is the later one), as
/// `Instant::duration_since` measures it.
pub uninterp spec fn elapsed_between(later: Instant, earlier: Instant) -> Duration;

/// The whole milliseconds of a duration, as `Duration::as_millis` counts them.
pub uninterp spec fn whole_millis(duration: Duration) -> u128;

/// `Instant::duration_since` is a function of its two instants; which duration it
/// gives is only named, not described.
pub assume_specification[ Instant::duration_since ](later: &Instant, earlier: Instant) -> (r:
    Duration)
    ensures
        r == elapsed_between(*later, earlier),
;

/// `Duration::as_millis` is a function of the duration; the count is only named.
pub assume_specification[ Duration::as_millis ](duration: &Duration) -> (r: u128)
    ensures
        r == whole_millis(*duration),
;

/// How long an edit must rest before a debounced save is due, in milliseconds.
pub const AUTO_SAVE_DEBOUNCE_MS: u64 = 400;

/// When to write the edited settings to disk: right away after discrete changes
/// (checkboxes, pickers), or once a dragged value has rested for
/// [`AUTO_SAVE_DEBOUNCE_MS`].
#[derive(Debug)]
pub struct AutoSaveState {
    pending_immediate_save: bool,
    last_debounced_change_at: Option<Instant>,
}

/// Whether an immediate save is requested, and whether a debounced save waits.
pub struct AutoSaveView {
    pub immediate: bool,
    pub debounced: bool,
}

impl View for AutoSaveState {
    type V = AutoSaveView;

    closed spec fn view(&self) -> AutoSaveView {
        AutoSaveView {
            immediate: self.pending_immediate_save,
            debounced: self.last_debounced_change_at is Some,
        }
    }
}

impl AutoSaveView {
    pub open spec fn has_pending(self) -> bool {
        self.immediate || self.debounced
    }

    /// Nothing waits.
    pub open spec fn idle() -> AutoSaveView {
        AutoSaveView { immediate: false, debounced: false }
    }
}

/// The last debounced change has rested long enough to be saved.
pub open spec fn rested(elapsed_since_change_ms: Option<u128>) -> bool {
    match elapsed_since_change_ms {
        Some(ms) => ms >= AUTO_SAVE_DEBOUNCE_MS,
        None => false,
    }
}

impl Default for AutoSaveState {
    fn default() -> (r: Self)
        ensures
            r@ == AutoSaveView::idle(),
    {
        AutoSaveState { pending_immediate_save: false, last_debounced_change_at: None }
    }
}

impl AutoSaveState {
    /// The instant of the last debounced change, if one waits.
    pub closed spec fn last_change(&self) -> Option<Instant> {
        self.last_debounced_change_at
    }

    pub fn request_immediate_save(&mut self)
        ensures
            final(self)@ == (AutoSaveView { immediate: true, debounced: old(self)@.debounced }),
            final(self).last_change() == old(self).last_change(),
    {
        self.pending_immediate_save = true;
    }

    pub fn request_debounced_save(&mut self)
        ensures
            final(self)@ == (AutoSaveView { immediate: old(self)@.immediate, debounced: true }),
    {
        self.request_debounced_save_at(Instant::now());
    }

    /// Records a change at `changed_at`, restarting the rest period.
    pub fn request_debounced_save_at(&mut self, changed_at: Instant)
        ensures
            final(self)@ == (AutoSaveView { immediate: old(self)@.immediate, debounced: true }),
            final(self).last_change() == Some(changed_at),
    {
        self.last_debounced_change_at = Some(changed_at);
    }

    /// Whether a save is due, given how many whole milliseconds passed since the
    /// last debounced change (when one waits): an immediate request is always
    /// due; a debounced one once it rested [`AUTO_SAVE_DEBOUNCE_MS`]. A due save
    /// is taken: nothing stays pending.
    pub fn take_save_due_after(&mut self, elapsed_since_change_ms: Option<u128>) -> (r: bool)
        ensures
            r == (old(self)@.immediate || (old(self)@.debounced && rested(elapsed_since_change_ms))),
            r ==> final(self)@ == AutoSaveView::idle(),
            !r ==> final(self)@ == old(self)@ && final(self).last_change() == old(self).last_change(),
    {
        if self.pending_immediate_save {
            self.pending_immediate_save = false;
            self.last_debounced_change_at = None;
            return true;
        }
        if self.last_debounced_change_at.is_some() {
            if let Some(ms) = elapsed_since_change_ms {
                if ms >= AUTO_SAVE_DEBOUNCE_MS as u128 {
                    self.last_debounced_change_at = None;
                    return true;
                }
            }
        }
        false
    }

    /// Whether a save is due at `now`: an immediate request is always due; a
    /// debounced change once the whole milliseconds from its instant to `now`
    /// reach [`AUTO_SAVE_DEBOUNCE_MS`]. A due save is taken: nothing stays pending.
    pub fn take_save_due_at(&mut self, now: Instant) -> (r: bool)
        ensures
            r == (old(self)@.immediate || (old(self)@.debounced && whole_millis(
                elapsed_between(now, old(self).last_change()->0),
            ) >= AUTO_SAVE_DEBOUNCE_MS)),
            old(self)@.immediate ==> r,
            !old(self)@.has_pending() ==> !r,
            r ==> final(self)@ == AutoSaveView::idle(),
            !r ==> final(self)@ == old(self)@ && final(self).last_change() == old(self).last_change(),
    {
        let elapsed_ms = match self.last_debounced_change_at {
            Some(changed_at) => Some(now.duration_since(changed_at).as_millis()),
            None => None,
        };
        self.take_save_due_after(elapsed_ms)
    }

    /// Whether a save is due now; see [`AutoSaveState::take_save_due_at`].
    pub fn take_save_due(&mut self) -> (r: bool)
        ensures
            old(self)@.immediate ==> r,
            !old(self)@.has_pending() ==> !r,
            r ==> final(self)@ == AutoSaveView::idle(),
            !r ==> final(self)@ == old(self)@ && final(self).last_change() == old(self).last_change(),
    {
        self.take_save_due_at(Instant::now())
    }

    pub fn has_pending(&self) -> (r: bool)
        ensures
            r == self@.has_pending(),
    {
        self.pending_immediate_save || self.last_debounced_change_at.is_some()
    }
}

/// The title of a setup section: its label, marked done or needed.
pub fn setup_section_title(label: &str, is_complete: bool) -> (r: String)
    ensures
        r@ == label@ + if is_complete {
            " (done)"@
        } else {
            " (needed)"@
        },
{
    let mut title = String::from_str(label);
    if is_complete {
        title.append(" (done)");
    } else {
        title.append(" (needed)");
    }
    title
}


// ----------------------------------------------------------------------------
// Toy selection

/// The names the toy checklist lists: the available toys in their order, then
/// the selected names that are not listed yet, in their order.
pub open spec fn checklist_names(available: Seq<Seq<char>>, selected: Seq<Seq<char>>) -> Seq<
    Seq<char>,
>
    decreases selected.len(),
{
    if selected.len() == 0 {
        available
    } else {
        let listed = checklist_names(available, selected.drop_last());
        if listed.contains(selected.last()) {
            listed
        } else {
            listed.push(selected.last())
        }
    }
}

/// The names of a list of toys.
pub open spec fn toy_names(toys: Seq<DiscoveredToy>) -> Seq<Seq<char>> {
    toys.map_values(|t: DiscoveredToy| t.name@)
}

/// One line of the toy checklist: a toy's name, whether it is selected, and
/// whether Intiface currently reports it (otherwise it is shown as offline).
#[derive(Debug, Clone, PartialEq, Eq)]
pub struct ToyChecklistEntry {
    pub name: String,
    pub selected: bool,
    pub online: bool,
}

fn toy_names_of(available: &[DiscoveredToy]) -> (r: Vec<String>)
    ensures
        string_views(r@) == toy_names(available@),
{
    let mut names: Vec<String> = Vec::new();
    let mut i: usize = 0;
    while i < available.len()
        invariant
            i <= available@.len(),
            names@.len() == i,
            string_views(names@) == toy_names(available@).take(i as int),
        decreases available@.len() - i,
    {
        let name = available[i].name.clone();
        assert(name@ == toy_names(available@)[i as int]);
        let ghost prev = names@;
        names.push(name);
        proof {
            assert forall|j: int| 0 <= j < i + 1 implies string_views(names@)[j] == toy_names(
                available@,
            ).take(i + 1)[j] by {
                if j < i {
                    assert(names@[j] == prev[j]);
                    assert(string_views(prev)[j] == toy_names(available@).take(i as int)[j]);
                }
            }
            assert(string_views(names@) =~= toy_names(available@).take(i + 1));
        }
        i += 1;
    }
    proof {
        assert(toy_names(available@).take(available@.len() as int) =~= toy_names(available@));
    }
    names
}

/// The checklist lists every available toy and every selected one, whether or
/// not Intiface reports it, and it lists no other name.
pub proof fn checklist_lists_every_known_toy(available: Seq<Seq<char>>, selected: Seq<Seq<char>>)
    ensures
        forall|n: Seq<char>| #[trigger]
            checklist_names(available, selected).contains(n) <==> (available.contains(n)
                || selected.contains(n)),
    decreases selected.len(),
{
    if selected.len() > 0 {
        let rest = selected.drop_last();
        checklist_lists_every_known_toy(available, rest);
        let listed = checklist_names(available, rest);
        assert forall|n: Seq<char>| #[trigger]
            checklist_names(available, selected).contains(n) <==> (available.contains(n)
                || selected.contains(n)) by {
            if selected.contains(n) && !rest.contains(n) {
                assert(n == selected.last()) by {
                    let k = choose|k: int| 0 <= k < selected.len() && selected[k] == n;
                    if k < selected.len() - 1 {
                        assert(rest[k] == n);
                    }
                }
            }
            if rest.contains(n) {
                let k = choose|k: int| 0 <= k < rest.len() && rest[k] == n;
                assert(selected[k] == n);
            }
            if !listed.contains(selected.last()) {
                let pushed = listed.push(selected.last());
                if pushed.contains(n) && n != selected.last() {
                    let k = choose|k: int| 0 <= k < pushed.len() && pushed[k] == n;
                    assert(listed[k] == n);
                }
                if listed.contains(n) {
                    let k = choose|k: int| 0 <= k < listed.len() && listed[k] == n;
                    assert(pushed[k] == n);
                }
                assert(pushed[listed.len() as int] == selected.last());
            }
            assert(selected[selected.len() - 1] == selected.last());
        }
    }
}

/// The toy checklist: every available toy, then every selected toy that is not
/// available, each once per listing rule of [`checklist_names`], marked selected
/// when its name is among `selected` and online when it is among `available`.
#[verifier::spinoff_prover]
pub fn toy_checklist(available: &[DiscoveredToy], selected: &Vec<String>) -> (r: Vec<
    ToyChecklistEntry,
>)
    ensures
        ({
            let names = checklist_names(toy_names(available@), string_views(selected@));
            &&& r@.len() == names.len()
            &&& forall|i: int|
                0 <= i < r@.len() ==> {
                    &&& #[trigger] r@[i].name@ == names[i]
                    &&& r@[i].selected == string_views(selected@).contains(names[i])
                    &&& r@[i].online == toy_names(available@).contains(names[i])
                }
        }),
{
    let online_names = toy_names_of(available);
    let mut names = toy_names_of(available);
    let mut j: usize = 0;
    while j < selected.len()
        invariant
            j <= selected@.len(),
            string_views(online_names@) == toy_names(available@),
            string_views(names@) == checklist_names(
                toy_names(available@),
                string_views(selected@).take(j as int),
            ),
        decreases selected@.len() - j,
    {
        proof {
            assert(string_views(selected@).take(j + 1).drop_last() =~= string_views(selected@).take(
                j as int,
            ));
        }
        if !contains_string(&names, selected[j].as_str()) {
            names.push(selected[j].clone());
            proof {
                assert(string_views(names@) =~= checklist_names(
                    toy_names(available@),
                    string_views(selected@).take(j as int),
                ).push(selected@[j as int]@));
            }
        }
        j += 1;
    }
    proof {
        assert(string_views(selected@).take(selected@.len() as int) =~= string_views(selected@));
    }
    let ghost listed = string_views(names@);
    let mut entries: Vec<ToyChecklistEntry> = Vec::new();
    let mut k: usize = 0;
    while k < names.len()
        invariant
            k <= names@.len(),
            listed.len() == names@.len(),
            listed == string_views(names@),
            listed == checklist_names(toy_names(available@), string_views(selected@)),
            string_views(online_names@) == toy_names(available@),
            entries@.len() == k,
            forall|i: int|
                0 <= i < k ==> {
                    &&& #[trigger] entries@[i].name@ == listed[i]
                    &&& entries@[i].selected == string_views(selected@).contains(listed[i])
                    &&& entries@[i].online == toy_names(available@).contains(listed[i])
                },
        decreases names@.len() - k,
    {
        let name = names[k].clone();
        assert(listed[k as int] == name@);
        let is_selected = contains_string(selected, name.as_str());
        let online = contains_string(&online_names, name.as_str());
        let ghost name_view = name@;
        let ghost prev = entries@;
        entries.push(ToyChecklistEntry { name, selected: is_selected, online });
        proof {
            assert(name_view == listed[k as int]);
            assert(is_selected == string_views(selected@).contains(listed[k as int]));
            assert(online == toy_names(available@).contains(listed[k as int]));
            assert forall|i: int| 0 <= i < k + 1 implies {
                &&& #[trigger] entries@[i].name@ == listed[i]
                &&& entries@[i].selected == string_views(selected@).contains(listed[i])
                &&& entries@[i].online == toy_names(available@).contains(listed[i])
            } by {
                if i < k {
                    assert(entries@[i] == prev[i]);
                    assert(prev[i].name@ == listed[i]);
                }
            }
        }
        k += 1;
    }
    assert(entries@.len() == listed.len());
    entries
}

/// `names` without every occurrence of `name`.
pub open spec fn without_name(names: Seq<Seq<char>>, name: Seq<char>) -> Seq<Seq<char>>
    decreases names.len(),
{
    if names.len() == 0 {
        names
    } else {
        let rest = without_name(names.drop_last(), name);
        if names.last() == name {
            rest
        } else {
            rest.push(names.last())
        }
    }
}

/// Holds of every name but `name`.
pub open spec fn other_than(name: Seq<char>) -> spec_fn(Seq<char>) -> bool {
    |n: Seq<char>| n != name
}

/// Removing a name keeps every other name, in its order: it is the list filtered
/// by "is not that name".
pub proof fn unticking_keeps_the_other_names_in_order(names: Seq<Seq<char>>, name: Seq<char>)
    ensures
        without_name(names, name) == names.filter(other_than(name)),
    decreases names.len(),
{
    reveal(Seq::filter);
    if names.len() > 0 {
        unticking_keeps_the_other_names_in_order(names.drop_last(), name);
    }
}

/// Ticks or unticks the toy `name` in the selection: ticking adds it at the end
/// unless it is already there; unticking removes every occurrence.
pub fn set_toy_selected(selected: &mut Vec<String>, name: &str, on: bool)
    ensures
        on && string_views(old(selected)@).contains(name@) ==> string_views(final(selected)@)
            == string_views(old(selected)@),
        on && !string_views(old(selected)@).contains(name@) ==> string_views(final(selected)@)
            == string_views(old(selected)@).push(name@),
        !on ==> string_views(final(selected)@) == without_name(string_views(old(selected)@), name@),
        !on ==> string_views(final(selected)@) == string_views(old(selected)@).filter(
            other_than(name@),
        ),
{
    proof {
        unticking_keeps_the_other_names_in_order(string_views(selected@), name@);
    }
    if on {
        if !contains_string(selected, name) {
            selected.push(String::from_str(name));
            proof {
                assert(string_views(selected@) =~= string_views(old(selected)@).push(name@));
            }
        }
        return;
    }
    let ghost before = string_views(selected@);
    let mut kept: Vec<String> = Vec::new();
    let mut i: usize = 0;
    while i < selected.len()
        invariant
            i <= selected@.len(),
            before == string_views(selected@),
            string_views(kept@) == without_name(before.take(i as int), name@),
        decreases selected@.len() - i,
    {
        proof {
            assert(before.take(i + 1).drop_last() =~= before.take(i as int));
        }
        let current = selected[i].clone();
        let target = String::from_str(name);
        if current != target {
            kept.push(current);
            proof {
                assert(string_views(kept@) =~= without_name(before.take(i as int), name@).push(
                    before[i as int],
                ));
            }
        }
        i += 1;
    }
    proof {
        assert(before.take(before.len() as int) =~= before);
    }
    *selected = kept;
}

} // verus!
