use vstd::prelude::*;

use crate::angle::Angle;
use crate::posture::{label, posture_of, PostureType};

verus! {

/// The failure text reported where the platform has no hinge sensor.
pub open spec fn unsupported_message() -> Seq<char> {
    "Platform not supported"@
}

/// Where the one-time attempt to obtain the platform sensor stands.
#[derive(Debug)]
pub enum Acquisition {
    /// No attempt has been made yet.
    NotAttempted,
    /// One reader has been asked to acquire and has not yet reported back;
    /// every other reader waits.
    Acquiring,
    /// The sensor was obtained and stays open for the life of the process.
    Acquired,
    /// The attempt failed, or the platform has no sensor; this is permanent
    /// and `error` is reported on every later read.
    Failed { error: String },
}

/// The decisions of the sensor access path. The owner performs the platform
/// work that each [`ReadStep`] asks for and reports the outcome back; the
/// sensor acquires at most once, caches a failed acquisition for good and
/// hands out the platform query to one reader at a time.
#[derive(Debug)]
pub struct HingeSensor {
    pub acquisition: Acquisition,
    /// A reader has been granted the platform query and not yet reported it.
    pub querying: bool,
}

/// What a reader must do next.
#[derive(Debug)]
pub enum ReadStep {
    /// Try to obtain the platform sensor, then report with
    /// [`HingeSensor::acquired`].
    Acquire,
    /// Query the platform sensor, then report with [`HingeSensor::queried`].
    Query,
    /// Another reader is acquiring the sensor or holds the platform query;
    /// ask again later.
    Wait,
    /// The read fails with this text.
    Fail { error: String },
}

/// The state after a read is started, and the step the reader is given.
pub open spec fn begin_read_spec(s: HingeSensor) -> (HingeSensor, ReadStep) {
    match s.acquisition {
        Acquisition::Failed { error } => (s, ReadStep::Fail { error }),
        Acquisition::NotAttempted => (
            HingeSensor { acquisition: Acquisition::Acquiring, ..s },
            ReadStep::Acquire,
        ),
        Acquisition::Acquiring => (s, ReadStep::Wait),
        Acquisition::Acquired => if s.querying {
            (s, ReadStep::Wait)
        } else {
            (HingeSensor { querying: true, ..s }, ReadStep::Query)
        },
    }
}

/// The state after the outcome of an acquisition attempt is recorded. Only
/// the outcome of the attempt under way counts: before it is asked for, and
/// once acquired or failed, the state stays.
pub open spec fn record_acquisition(s: HingeSensor, outcome: Result<(), String>) -> HingeSensor {
    match s.acquisition {
        Acquisition::Acquiring => match outcome {
            Ok(()) => HingeSensor { acquisition: Acquisition::Acquired, ..s },
            Err(error) => HingeSensor { acquisition: Acquisition::Failed { error }, ..s },
        },
        _ => s,
    }
}

impl HingeSensor {
    /// A sensor on a platform that has one; nothing is acquired yet.
    pub fn new() -> (r: HingeSensor)
        ensures
            r.acquisition == Acquisition::NotAttempted,
            !r.querying,
    {
        HingeSensor { acquisition: Acquisition::NotAttempted, querying: false }
    }

    /// A sensor on a platform without one: every read fails with
    /// "Platform not supported" and nothing is ever acquired.
    pub fn unsupported() -> (r: HingeSensor)
        ensures
            r.acquisition is Failed,
            r.acquisition->error@ == unsupported_message(),
            !r.querying,
    {
        let error = String::from_str("Platform not supported");
        HingeSensor { acquisition: Acquisition::Failed { error }, querying: false }
    }

    /// Starts a read: reports the cached failure, asks for the one-time
    /// acquisition, grants the platform query, or asks the reader to wait
    /// while another one holds it.
    pub fn begin_read(&mut self) -> (r: ReadStep)
        ensures
            (*final(self), r) == begin_read_spec(*old(self)),
    {
        match &self.acquisition {
            Acquisition::Failed { error } => ReadStep::Fail { error: error.clone() },
            Acquisition::NotAttempted => {
                self.acquisition = Acquisition::Acquiring;
                ReadStep::Acquire
            },
            Acquisition::Acquiring => ReadStep::Wait,
            Acquisition::Acquired => {
                if self.querying {
                    ReadStep::Wait
                } else {
                    self.querying = true;
                    ReadStep::Query
                }
            },
        }
    }

    /// Records the outcome of the acquisition attempt under way (the one
    /// that [`ReadStep::Acquire`] asked for) and goes on with the read.
    pub fn acquired(&mut self, outcome: Result<(), String>) -> (r: ReadStep)
        ensures
            (*final(self), r) == begin_read_spec(record_acquisition(*old(self), outcome)),
    {
        if let Acquisition::Acquiring = self.acquisition {
            match outcome {
                Ok(()) => {
                    self.acquisition = Acquisition::Acquired;
                },
                Err(error) => {
                    self.acquisition = Acquisition::Failed { error };
                },
            }
        }
        self.begin_read()
    }

    /// Records that the granted platform query is over and hands its outcome
    /// back unchanged.
    pub fn queried(&mut self, outcome: Result<Angle, String>) -> (r: Result<Angle, String>)
        ensures
            r == outcome,
            *final(self) == (HingeSensor { querying: false, ..*old(self) }),
    {
        self.querying = false;
        outcome
    }
}

/// The answer to a posture request, from the outcome of the angle read:
/// the label of the angle's posture, or the read's failure text unchanged.
pub fn posture_reply(outcome: Result<Angle, String>) -> (r: Result<String, String>)
    ensures
        match outcome {
            Ok(a) => r is Ok && r->Ok_0@ == label(posture_of(a)),
            Err(e) => r == Err::<String, String>(e),
        },
{
    match outcome {
        Ok(a) => Ok(PostureType::from_angle(a).to_string()),
        Err(e) => Err(e),
    }
}

/// A failed acquisition is cached: two reads in a row on such a sensor both
/// fail with the same text, change nothing, and no later outcome of an
/// acquisition is taken into account.
pub proof fn lemma_failure_cached(s: HingeSensor, outcome: Result<(), String>)
    requires
        s.acquisition is Failed,
    ensures
        begin_read_spec(s) == (s, ReadStep::Fail { error: s.acquisition->error }),
        begin_read_spec(begin_read_spec(s).0) == begin_read_spec(s),
        record_acquisition(s, outcome) == s,
{
}

/// The sensor is acquired at most once: only a sensor that has never asked
/// for an acquisition asks for one, and it then records the attempt as under
/// way, so that other readers wait; from then on no step asks again or goes
/// back to the state before the first attempt.
pub proof fn lemma_acquisition_once(s: HingeSensor, outcome: Result<(), String>)
    ensures
        begin_read_spec(s).1 is Acquire <==> s.acquisition is NotAttempted,
        s.acquisition is NotAttempted ==> begin_read_spec(s).0.acquisition is Acquiring,
        s.acquisition is Acquiring ==> begin_read_spec(s) == (s, ReadStep::Wait),
        !(s.acquisition is NotAttempted) ==> !(begin_read_spec(s).0.acquisition is NotAttempted),
        !(s.acquisition is NotAttempted) ==> !(begin_read_spec(
            record_acquisition(s, outcome),
        ).1 is Acquire),
        !(s.acquisition is NotAttempted) ==> !(begin_read_spec(
            record_acquisition(s, outcome),
        ).0.acquisition is NotAttempted),
{
}

/// Platform queries never overlap: while one is granted no step grants
/// another, and a granted query is recorded as in progress.
pub proof fn lemma_queries_serialized(s: HingeSensor, outcome: Result<(), String>)
    ensures
        s.querying ==> !(begin_read_spec(s).1 is Query),
        s.querying ==> !(begin_read_spec(record_acquisition(s, outcome)).1 is Query),
        begin_read_spec(s).1 is Query ==> !s.querying && begin_read_spec(s).0.querying,
        begin_read_spec(record_acquisition(s, outcome)).1 is Query ==> !s.querying
            && begin_read_spec(record_acquisition(s, outcome)).0.querying,
{
}

} // verus!
