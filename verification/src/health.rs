//! The last heartbeat of each background task, and which task has gone
//! quiet for too long.
use vstd::prelude::*;

use crate::text::chars_equal;

verus! {

/// How long a task may stay quiet: ten minutes, in nanoseconds.
pub const QUIET_LIMIT_NANOS: u64 = 600_000_000_000;

/// The last heartbeat of each task that has reported, in the order in which
/// the tasks first reported. Times are nanoseconds on a clock that does not
/// go back.
#[derive(Debug, Clone)]
pub struct HealthMonitor {
    beats: Vec<(String, u64)>,
}

/// Whether a task whose last heartbeat was at `last` is quiet for too long
/// at `now`.
pub open spec fn is_overdue(last: u64, now: u64) -> bool {
    now > last && now - last > QUIET_LIMIT_NANOS
}

impl HealthMonitor {
    /// The tasks and their last heartbeats.
    pub closed spec fn view(&self) -> Map<Seq<char>, u64> {
        Map::new(
            |name: Seq<char>| exists|i: int| 0 <= i < self.beats@.len() && self.beats@[i].0@ == name,
            |name: Seq<char>|
                self.beats@[choose|i: int| 0 <= i < self.beats@.len() && self.beats@[i].0@ == name].1,
        )
    }

    /// No task is listed twice.
    pub closed spec fn well_formed(&self) -> bool {
        forall|i: int, j: int|
            0 <= i < j < self.beats@.len() ==> #[trigger] self.beats@[i].0@ != #[trigger] self.beats@[j].0@
    }

    proof fn lemma_entry(&self, i: int)
        requires
            self.well_formed(),
            0 <= i < self.beats@.len(),
        ensures
            self@.dom().contains(self.beats@[i].0@),
            self@[self.beats@[i].0@] == self.beats@[i].1,
    {
        let name = self.beats@[i].0@;
        assert(exists|k: int| 0 <= k < self.beats@.len() && self.beats@[k].0@ == name);
        let k = choose|k: int| 0 <= k < self.beats@.len() && self.beats@[k].0@ == name;
        if k != i {
            if k < i {
                assert(self.beats@[k].0@ != self.beats@[i].0@);
            } else {
                assert(self.beats@[i].0@ != self.beats@[k].0@);
            }
        }
    }

    /// A monitor that has heard from no task.
    pub fn new() -> (res: Self)
        ensures
            res.well_formed(),
            res@ == Map::<Seq<char>, u64>::empty(),
    {
        let res = HealthMonitor { beats: Vec::new() };
        assert(res@ =~= Map::<Seq<char>, u64>::empty());
        res
    }

    /// Records that a task reported at `now`; every other task keeps its
    /// last heartbeat.
    #[verifier::spinoff_prover]
    pub fn im_alive(&mut self, task_name: &str, now: u64)
        requires
            old(self).well_formed(),
        ensures
            final(self).well_formed(),
            final(self)@ == old(self)@.insert(task_name@, now),
    {
        let ghost before = self@;
        let ghost old_self = *self;
        let mut i: usize = 0;
        while i < self.beats.len()
            invariant
                i <= self.beats@.len(),
                forall|k: int| 0 <= k < i ==> self.beats@[k].0@ != task_name@,
            ensures
                i <= self.beats@.len(),
                forall|k: int| 0 <= k < i ==> self.beats@[k].0@ != task_name@,
                i < self.beats@.len() ==> self.beats@[i as int].0@ == task_name@,
            decreases self.beats@.len() - i,
        {
            let name = crate::text::chars_of(self.beats[i].0.as_str());
            if chars_equal(&name, task_name) {
                break;
            }
            i = i + 1;
        }
        let ghost old_beats = self.beats@;
        if i < self.beats.len() {
            let mut name = String::new();
            crate::text::push_str(&mut name, task_name);
            self.beats.set(i, (name, now));
            proof {
                assert(old_beats[i as int].0@ == task_name@) by {
                    assert(i < old_beats.len());
                }
                assert forall|a: int, b: int|
                    0 <= a < b < self.beats@.len() implies #[trigger] self.beats@[a].0@
                    != #[trigger] self.beats@[b].0@ by {
                    assert(self.beats@[a].0@ == old_beats[a].0@);
                    assert(self.beats@[b].0@ == old_beats[b].0@);
                }
            }
        } else {
            let mut name = String::new();
            crate::text::push_str(&mut name, task_name);
            self.beats.push((name, now));
            proof {
                assert forall|a: int, b: int|
                    0 <= a < b < self.beats@.len() implies #[trigger] self.beats@[a].0@
                    != #[trigger] self.beats@[b].0@ by {
                    assert(self.beats@[a] == old_beats[a]);
                    if b < old_beats.len() {
                        assert(self.beats@[b] == old_beats[b]);
                    }
                }
            }
        }
        proof {
            assert forall|name: Seq<char>| #[trigger] self@.dom().contains(name) <==> before.insert(
                task_name@,
                now,
            ).dom().contains(name) by {
                if self@.dom().contains(name) {
                    let k = choose|k: int| 0 <= k < self.beats@.len() && self.beats@[k].0@ == name;
                    if name != task_name@ {
                        assert(k < old_beats.len() && old_beats[k].0@ == name);
                    }
                }
                if before.dom().contains(name) && name != task_name@ {
                    let k = choose|k: int| 0 <= k < old_beats.len() && old_beats[k].0@ == name;
                    assert(self.beats@[k].0@ == name);
                }
                if name == task_name@ {
                    if i < old_beats.len() {
                        assert(self.beats@[i as int].0@ == name);
                    } else {
                        assert(self.beats@[old_beats.len() as int].0@ == name);
                    }
                }
            }
            assert forall|name: Seq<char>| #[trigger] self@.dom().contains(name) implies self@[name]
                == before.insert(task_name@, now)[name] by {
                let k = choose|k: int| 0 <= k < self.beats@.len() && self.beats@[k].0@ == name;
                self.lemma_entry(k);
                if name != task_name@ {
                    assert(k < old_beats.len());
                    assert(old_beats[k] == self.beats@[k]);
                    old_self.lemma_entry(k);
                }
            }
            assert(self@ =~= before.insert(task_name@, now));
        }
    }

    /// A task quiet for more than ten minutes at `now`, if there is one.
    /// Which of several such tasks is named is left open.
    pub fn overdue(&self, now: u64) -> (res: Option<String>)
        requires
            self.well_formed(),
        ensures
            res is None <==> forall|name: Seq<char>|
                #[trigger] self@.dom().contains(name) ==> !is_overdue(self@[name], now),
            res matches Some(name) ==> self@.dom().contains(name@) && is_overdue(
                self@[name@],
                now,
            ),
    {
        let mut i: usize = 0;
        while i < self.beats.len()
            invariant
                self.well_formed(),
                i <= self.beats@.len(),
                forall|k: int| 0 <= k < i ==> !is_overdue(#[trigger] self.beats@[k].1, now),
            decreases self.beats@.len() - i,
        {
            let last = self.beats[i].1;
            if now > last && now - last > QUIET_LIMIT_NANOS {
                proof {
                    self.lemma_entry(i as int);
                }
                return Some(self.beats[i].0.clone());
            }
            i = i + 1;
        }
        proof {
            assert forall|name: Seq<char>| #[trigger] self@.dom().contains(name) implies !is_overdue(
                self@[name],
                now,
            ) by {
                let k = choose|k: int| 0 <= k < self.beats@.len() && self.beats@[k].0@ == name;
                self.lemma_entry(k);
            }
        }
        None
    }
}

/// A task that has just reported is not overdue: after its heartbeat at
/// `now` is recorded, it is not quiet for too long at `now`, nor at any
/// time up to ten minutes later.
pub proof fn law_fresh_heartbeat_not_overdue(
    beats: Map<Seq<char>, u64>,
    task_name: Seq<char>,
    now: u64,
    later: u64,
)
    requires
        now <= later <= now + QUIET_LIMIT_NANOS,
    ensures
        beats.insert(task_name, now).dom().contains(task_name),
        !is_overdue(beats.insert(task_name, now)[task_name], later),
{
}

} // verus!
