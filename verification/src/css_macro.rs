//! Registration of a declaration site's fragment: once per site, however
//! often the site runs.

use vstd::prelude::*;

use crate::css_collection::{joined, CssCollection};

verus! {

/// The one-shot latch of a declaration site: unset until the site first
/// runs, set from then on.
pub struct RegistrationLatch {
    registered: bool,
}

impl View for RegistrationLatch {
    type V = bool;

    /// Whether the site has run.
    closed spec fn view(&self) -> bool {
        self.registered
    }
}

impl RegistrationLatch {
    /// The latch of a site that has not run yet.
    pub fn new() -> (latch: Self)
        ensures
            !latch@,
    {
        RegistrationLatch { registered: false }
    }

    /// Whether the site has run.
    pub fn is_registered(&self) -> (registered: bool)
        ensures
            registered == self@,
    {
        self.registered
    }

    /// Sets the latch and says whether it was set before.
    pub fn swap(&mut self) -> (was_registered: bool)
        ensures
            was_registered == old(self)@,
            final(self)@,
    {
        let was_registered = self.registered;
        self.registered = true;
        was_registered
    }
}

/// One run of a declaration site with the fragment `css`, on a latch in
/// state `registered` and a registry holding `fragments`: the latch is set,
/// and the fragment is added if the latch was not set before.
pub open spec fn run_site(registered: bool, fragments: Seq<Seq<char>>, css: Seq<char>) -> (
    bool,
    Seq<Seq<char>>,
) {
    (true, if registered { fragments } else { fragments.push(css) })
}

/// `runs` runs of one declaration site in a row.
pub open spec fn run_site_times(
    registered: bool,
    fragments: Seq<Seq<char>>,
    css: Seq<char>,
    runs: nat,
) -> (bool, Seq<Seq<char>>)
    decreases runs,
{
    if runs == 0 {
        (registered, fragments)
    } else {
        let before = run_site_times(registered, fragments, css, (runs - 1) as nat);
        run_site(before.0, before.1, css)
    }
}

/// Runs a declaration site: registers `css` in `collection` if `latch` says
/// that the site has not run before, and sets the latch.
///
/// Returns whether this run did the registration, which is when the
/// listeners of the collection are to be notified.
pub fn register_once(latch: &mut RegistrationLatch, collection: &mut CssCollection, css: &str) -> (
    registered_now: bool
)
    ensures
        registered_now == !old(latch)@,
        (final(latch)@, final(collection)@) == run_site(old(latch)@, old(collection)@, css@),
{
    let was_registered = latch.swap();
    if !was_registered {
        collection.register(css.to_owned());
    }
    !was_registered
}

/// A declaration site that runs once or more registers its fragment exactly
/// once: after any number of runs the registry holds what it held after the
/// first, and so does the aggregate stylesheet.
pub proof fn lemma_registered_exactly_once(fragments: Seq<Seq<char>>, css: Seq<char>, runs: nat)
    requires
        runs >= 1,
    ensures
        run_site_times(false, fragments, css, runs) == (true, fragments.push(css)),
        run_site_times(false, fragments, css, runs) == run_site_times(false, fragments, css, 1),
        joined(run_site_times(false, fragments, css, runs).1) == joined(
            run_site_times(false, fragments, css, 1).1,
        ),
    decreases runs,
{
    reveal_with_fuel(run_site_times, 2);
    if runs > 1 {
        lemma_registered_exactly_once(fragments, css, (runs - 1) as nat);
    }
}

/// A declaration site that has run before leaves the registry as it is,
/// however often it runs again.
pub proof fn lemma_registered_site_adds_nothing(
    fragments: Seq<Seq<char>>,
    css: Seq<char>,
    runs: nat,
)
    ensures
        run_site_times(true, fragments, css, runs) == (true, fragments),
    decreases runs,
{
    if runs > 0 {
        lemma_registered_site_adds_nothing(fragments, css, (runs - 1) as nat);
    }
}

/// Two declaration sites that first run one after the other, on an empty
/// registry, give the aggregate of the first fragment, a newline and the
/// second fragment. This holds of equal fragments too: the sites are told
/// apart by their latches, not by what they declare.
pub proof fn lemma_aggregate_of_two_sites(first: Seq<char>, second: Seq<char>)
    ensures
        ({
            let after_first = run_site(false, Seq::empty(), first);
            let after_second = run_site(false, after_first.1, second);
            joined(after_second.1) == first + seq!['\n'] + second
        }),
{
    let after_first = run_site(false, Seq::empty(), first);
    let after_second = run_site(false, after_first.1, second);
    assert(after_second.1.drop_last() =~= seq![first]);
    reveal_with_fuel(joined, 3);
}

/// Registration keeps what is registered: the fragments before a run are
/// the first fragments after it, in the same order.
pub proof fn lemma_run_keeps_fragments(registered: bool, fragments: Seq<Seq<char>>, css: Seq<char>)
    ensures
        fragments.is_prefix_of(run_site(registered, fragments, css).1),
{
}

/// A program's declaration sites run in the order `schedule`, each entry the
/// number of the site that runs; `latches` and `css` hold, by site number,
/// each site's latch and fragment.
pub open spec fn run_schedule(
    latches: Seq<bool>,
    fragments: Seq<Seq<char>>,
    css: Seq<Seq<char>>,
    schedule: Seq<int>,
) -> (Seq<bool>, Seq<Seq<char>>)
    decreases schedule.len(),
{
    if schedule.len() == 0 {
        (latches, fragments)
    } else {
        let before = run_schedule(latches, fragments, css, schedule.drop_last());
        let site = schedule.last();
        let after = run_site(before.0[site], before.1, css[site]);
        (before.0.update(site, after.0), after.1)
    }
}

/// The sites of `schedule` in the order in which they first run.
pub open spec fn first_runs(schedule: Seq<int>) -> Seq<int>
    decreases schedule.len(),
{
    if schedule.len() == 0 {
        Seq::empty()
    } else if schedule.drop_last().contains(schedule.last()) {
        first_runs(schedule.drop_last())
    } else {
        first_runs(schedule.drop_last()).push(schedule.last())
    }
}

/// Whatever the order in which sites run, and however often each of them
/// does, the registry gains the fragment of each site that ran exactly once,
/// in the order in which the sites first ran; and a latch is set exactly if
/// its site ran.
pub proof fn lemma_first_run_order(
    fragments: Seq<Seq<char>>,
    css: Seq<Seq<char>>,
    schedule: Seq<int>,
)
    requires
        forall|k: int| 0 <= k < schedule.len() ==> 0 <= #[trigger] schedule[k] < css.len(),
    ensures
        ({
            let fresh = Seq::new(css.len(), |site: int| false);
            let after = run_schedule(fresh, fragments, css, schedule);
            &&& after.0.len() == css.len()
            &&& forall|site: int|
                0 <= site < css.len() ==> #[trigger] after.0[site] == schedule.contains(site)
            &&& after.1 == fragments + first_runs(schedule).map_values(|site: int| css[site])
        }),
    decreases schedule.len(),
{
    let fresh = Seq::new(css.len(), |site: int| false);
    let after = run_schedule(fresh, fragments, css, schedule);
    let added = first_runs(schedule).map_values(|site: int| css[site]);
    if schedule.len() == 0 {
        assert(after.1 =~= fragments + added);
    } else {
        let earlier = schedule.drop_last();
        let last = schedule.last();
        assert forall|k: int| 0 <= k < earlier.len() implies 0 <= #[trigger] earlier[k]
            < css.len() by {
            assert(earlier[k] == schedule[k]);
        }
        lemma_first_run_order(fragments, css, earlier);
        let before = run_schedule(fresh, fragments, css, earlier);
        let added_before = first_runs(earlier).map_values(|site: int| css[site]);
        assert(0 <= last < css.len()) by {
            assert(last == schedule[schedule.len() - 1]);
        }
        assert(before.0[last] == earlier.contains(last));
        assert forall|site: int| 0 <= site < css.len() implies #[trigger] after.0[site]
            == schedule.contains(site) by {
            if site == last {
                assert(schedule[schedule.len() - 1] == site);
            } else if earlier.contains(site) {
                let k = choose|k: int| 0 <= k < earlier.len() && earlier[k] == site;
                assert(schedule[k] == site);
            } else if schedule.contains(site) {
                let k = choose|k: int| 0 <= k < schedule.len() && schedule[k] == site;
                assert(earlier[k] == site);
            }
        }
        if earlier.contains(last) {
            assert(after.1 =~= fragments + added);
        } else {
            assert(added =~= added_before.push(css[last]));
            assert(after.1 =~= fragments + added);
        }
    }
}

/// Any number of runs of one site, in whatever order they are taken among
/// themselves, add its fragment once: nothing is registered twice and
/// nothing is lost.
pub proof fn lemma_racing_runs_register_once(
    fragments: Seq<Seq<char>>,
    css: Seq<Seq<char>>,
    site: int,
    schedule: Seq<int>,
)
    requires
        0 <= site < css.len(),
        schedule.len() >= 1,
        forall|k: int| 0 <= k < schedule.len() ==> #[trigger] schedule[k] == site,
    ensures
        run_schedule(Seq::new(css.len(), |site: int| false), fragments, css, schedule).1
            == fragments.push(css[site]),
{
    lemma_first_run_order(fragments, css, schedule);
    lemma_first_runs_of_one_site(site, schedule);
    assert(seq![site].map_values(|site: int| css[site]) =~= seq![css[site]]);
    assert(fragments + seq![css[site]] =~= fragments.push(css[site]));
}

/// A schedule of one site alone has that site as its only first run.
proof fn lemma_first_runs_of_one_site(site: int, schedule: Seq<int>)
    requires
        schedule.len() >= 1,
        forall|k: int| 0 <= k < schedule.len() ==> #[trigger] schedule[k] == site,
    ensures
        first_runs(schedule) == seq![site],
    decreases schedule.len(),
{
    let earlier = schedule.drop_last();
    if schedule.len() == 1 {
        assert(first_runs(earlier) =~= Seq::<int>::empty());
        assert(!earlier.contains(schedule.last()));
        assert(first_runs(schedule) =~= seq![site]);
    } else {
        assert forall|k: int| 0 <= k < earlier.len() implies #[trigger] earlier[k] == site by {
            assert(earlier[k] == schedule[k]);
        }
        lemma_first_runs_of_one_site(site, earlier);
        assert(earlier[0] == schedule.last());
        assert(earlier.contains(schedule.last()));
    }
}

} // verus!
