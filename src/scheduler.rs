//! The sleep interval between two reports.

use vstd::prelude::*;
use rand::Rng;
use crate::config::Config;

verus! {

/// Relies on `rand::thread_rng` and `Rng::gen_range` over `lo..=hi`: a
/// uniformly drawn value of the range, which must not be empty.
#[verifier::external_body]
fn random_between(lo: u64, hi: u64) -> (r: u64)
    requires
        lo <= hi,
    ensures
        lo <= r <= hi,
{
    rand::thread_rng().gen_range(lo..=hi)
}

/// The interval for a value `draw` drawn between the bounds: the bound
/// itself where the bounds are equal, else the draw.
pub fn interval_of_draw(min: u64, max: u64, draw: u64) -> (r: u64)
    requires
        min <= draw <= max,
    ensures
        r == (if min == max { max } else { draw }),
{
    if min == max {
        max
    } else {
        draw
    }
}

/// The seconds to sleep before the next report: the bound itself where the
/// bounds are equal, else a value drawn uniformly between them, both
/// included.
pub fn next_interval(min: u64, max: u64) -> (r: u64)
    requires
        min <= max,
    ensures
        min <= r <= max,
        min == max ==> r == min,
{
    let draw = random_between(min, max);
    interval_of_draw(min, max, draw)
}

impl Config {
    /// The seconds to sleep before the next report, between the configured
    /// bounds.
    pub fn calculate_interval(&self) -> (r: u64)
        requires
            self.wf(),
        ensures
            self.min_interval <= r <= self.max_interval,
            self.min_interval == self.max_interval ==> r == self.min_interval,
    {
        next_interval(self.min_interval, self.max_interval)
    }

    /// The seconds to wait before the first report: none where the
    /// settings ask to send at once, else one interval.
    pub fn first_wait(&self) -> (r: u64)
        requires
            self.wf(),
        ensures
            self.send_now ==> r == 0,
            !self.send_now ==> self.min_interval <= r <= self.max_interval,
            !self.send_now && self.min_interval == self.max_interval ==> r == self.min_interval,
    {
        if self.send_now {
            0
        } else {
            self.calculate_interval()
        }
    }
}

} // verus!
