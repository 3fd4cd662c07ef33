//! The fail-stop analog sampler: one conversion per period, each reading
//! reported, and the first failed conversion ends the task for good.
use vstd::prelude::*;

verus! {

/// Time between two conversions, in milliseconds.
pub const SAMPLE_PERIOD_MS: u64 = 500;

/// An analog-to-digital conversion that did not produce a value.
#[derive(Clone, Copy, Debug, PartialEq, Eq, Structural)]
pub struct ConversionError;

/// What the sampler task does with a conversion's result.
#[derive(Clone, Copy, Debug, PartialEq, Eq, Structural)]
pub enum SampleOutcome {
    /// Report this reading and keep sampling.
    Report(u16),
    /// Report nothing more; the task leaves its loop.
    Stop,
}

/// One step: whether the sampler still runs afterwards, and the outcome.
pub open spec fn sampler_step(running: bool, reading: Result<u16, ConversionError>) -> (
    bool,
    SampleOutcome,
) {
    match reading {
        Ok(v) => if running {
            (true, SampleOutcome::Report(v))
        } else {
            (false, SampleOutcome::Stop)
        },
        Err(_) => (false, SampleOutcome::Stop),
    }
}

/// Whether the sampler still runs after the readings `rs`, and the values
/// it reported on the way.
pub open spec fn run_sampler(running: bool, rs: Seq<Result<u16, ConversionError>>) -> (
    bool,
    Seq<u16>,
)
    decreases rs.len(),
{
    if rs.len() == 0 {
        (running, Seq::empty())
    } else {
        let (r1, out) = sampler_step(running, rs[0]);
        let (r2, vals) = run_sampler(r1, rs.drop_first());
        match out {
            SampleOutcome::Report(v) => (r2, seq![v] + vals),
            SampleOutcome::Stop => (r2, vals),
        }
    }
}

/// The sampler task's state: running until a conversion fails.
#[derive(Clone, Copy, Debug, PartialEq, Eq, Structural)]
pub struct Sampler {
    running: bool,
}

impl View for Sampler {
    type V = bool;

    /// Whether the sampler still runs.
    closed spec fn view(&self) -> bool {
        self.running
    }
}

impl Sampler {
    /// A running sampler.
    pub fn new() -> (r: Self)
        ensures
            r@,
    {
        Sampler { running: true }
    }

    /// Whether the sampler still runs.
    pub fn is_running(&self) -> (r: bool)
        ensures
            r == self@,
    {
        self.running
    }

    /// How long to wait before the next conversion; `None` once stopped.
    pub fn next_wait(&self) -> (r: Option<u64>)
        ensures
            r == (if self@ {
                Some(SAMPLE_PERIOD_MS)
            } else {
                None::<u64>
            }),
    {
        if self.running {
            Some(SAMPLE_PERIOD_MS)
        } else {
            None
        }
    }

    /// Takes in a conversion's result and says what to report.
    pub fn on_reading(&mut self, reading: Result<u16, ConversionError>) -> (r: SampleOutcome)
        ensures
            (final(self)@, r) == sampler_step(old(self)@, reading),
    {
        match reading {
            Ok(v) => if self.running {
                SampleOutcome::Report(v)
            } else {
                SampleOutcome::Stop
            },
            Err(_) => {
                self.running = false;
                SampleOutcome::Stop
            },
        }
    }
}

/// Running through `a` and then `b` is running through `a + b`.
pub proof fn lemma_sampler_concat(
    running: bool,
    a: Seq<Result<u16, ConversionError>>,
    b: Seq<Result<u16, ConversionError>>,
)
    ensures
        run_sampler(running, a + b) == (
            run_sampler(run_sampler(running, a).0, b).0,
            run_sampler(running, a).1 + run_sampler(run_sampler(running, a).0, b).1,
        ),
    decreases a.len(),
{
    if a.len() == 0 {
        assert(a + b =~= b);
        assert(Seq::<u16>::empty() + run_sampler(running, b).1 =~= run_sampler(running, b).1);
    } else {
        let r1 = sampler_step(running, a[0]).0;
        assert((a + b).drop_first() =~= a.drop_first() + b);
        lemma_sampler_concat(r1, a.drop_first(), b);
        let x = run_sampler(r1, a.drop_first()).1;
        let y = run_sampler(run_sampler(r1, a.drop_first()).0, b).1;
        match sampler_step(running, a[0]).1 {
            SampleOutcome::Report(v) => {
                assert(seq![v] + (x + y) =~= (seq![v] + x) + y);
            },
            SampleOutcome::Stop => {},
        }
    }
}

/// A stopped sampler stays stopped and reports nothing, whatever follows.
pub proof fn lemma_stopped_stays_silent(rs: Seq<Result<u16, ConversionError>>)
    ensures
        run_sampler(false, rs) == (false, Seq::<u16>::empty()),
    decreases rs.len(),
{
    if rs.len() > 0 {
        lemma_stopped_stays_silent(rs.drop_first());
    }
}

/// After a failed conversion the sampler reports nothing more: whatever
/// came before and after it, only the readings before it are reported,
/// and the sampler ends stopped.
pub proof fn lemma_failure_stops_sampler(
    running: bool,
    before: Seq<Result<u16, ConversionError>>,
    after: Seq<Result<u16, ConversionError>>,
)
    ensures
        run_sampler(running, before + seq![Err(ConversionError)] + after) == (
            false,
            run_sampler(running, before).1,
        ),
{
    let fail = seq![Err::<u16, ConversionError>(ConversionError)];
    lemma_sampler_concat(running, before, fail);
    lemma_sampler_concat(running, before + fail, after);
    let mid = run_sampler(running, before).0;
    reveal_with_fuel(run_sampler, 2);
    assert(fail.drop_first() =~= Seq::<Result<u16, ConversionError>>::empty());
    assert(run_sampler(mid, fail) == (false, Seq::<u16>::empty()));
    lemma_stopped_stays_silent(after);
    assert(run_sampler(running, before).1 + Seq::<u16>::empty() =~= run_sampler(
        running,
        before,
    ).1);
}

} // verus!
