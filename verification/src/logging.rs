//! Logging helpers: the banner format of the log messages, and the
//! bounded panel log shown by the host UI.

use vstd::prelude::*;

verus! {

/// How many entries the panel log retains.
pub const MAX_PANEL_LOG_ENTRIES: usize = 100;

/// Frame a message under a banner carrying its title, the way every log
/// line of this project is shaped.
pub fn log_format(title: &str, content: &str) -> (r: String)
    ensures
        r@ == "\n*** *** *** ["@ + title@ + "] *** *** ***\n"@ + content@
            + "\n*** *** *** ["@ + title@ + "] *** *** ***\n\n"@,
{
    let mut r = String::from_str("\n*** *** *** [");
    r.append(title);
    r.append("] *** *** ***\n");
    r.append(content);
    r.append("\n*** *** *** [");
    r.append(title);
    r.append("] *** *** ***\n\n");
    r
}

/// The panel log: the most recent messages, at most
/// [`MAX_PANEL_LOG_ENTRIES`] of them.
#[derive(Debug)]
pub struct PolarBearLogging {
    /// The retained messages, oldest first.
    pub logs: Vec<String>,
}

impl PolarBearLogging {
    /// An empty panel log.
    pub fn new() -> (r: PolarBearLogging)
        ensures
            r.logs@.len() == 0,
    {
        PolarBearLogging { logs: Vec::new() }
    }

    /// Record a message: it is appended, and when the log would exceed
    /// its bound the oldest entry falls out.
    pub fn log(&mut self, content: String)
        requires
            old(self).logs@.len() <= MAX_PANEL_LOG_ENTRIES,
        ensures
            final(self).logs@.len() <= MAX_PANEL_LOG_ENTRIES,
            final(self).logs@ == if old(self).logs@.len() < MAX_PANEL_LOG_ENTRIES {
                old(self).logs@.push(content)
            } else {
                old(self).logs@.push(content).drop_first()
            },
            final(self).logs@.last() == content,
    {
        self.logs.push(content);
        if self.logs.len() > MAX_PANEL_LOG_ENTRIES {
            self.logs.remove(0);
            proof {
                assert(self.logs@ =~= old(self).logs@.push(content).drop_first());
            }
        }
    }
}

/// Taking the value out of a fallible result, under the caller's proof
/// that one is there: the verified shape of this project's expectation
/// helper, which never panics because its callers discharge the
/// obligation instead.
pub trait PolarBearExpectation<T>: Sized {
    /// Whether a value is there to take.
    spec fn pb_has_value(&self) -> bool;

    /// The value that is there.
    spec fn pb_value(&self) -> T;

    /// Take the value. The message names what failed, for callers that
    /// surface the obligation to a log line.
    fn pb_expect(self, msg: &str) -> (r: T)
        requires
            self.pb_has_value(),
        ensures
            r == self.pb_value(),
    ;
}

impl<T, E> PolarBearExpectation<T> for Result<T, E> {
    open spec fn pb_has_value(&self) -> bool {
        self is Ok
    }

    open spec fn pb_value(&self) -> T {
        self->Ok_0
    }

    fn pb_expect(self, msg: &str) -> (r: T) {
        let _ = msg;
        match self {
            Ok(value) => value,
            Err(_) => vstd::pervasive::unreached(),
        }
    }
}

impl<T> PolarBearExpectation<T> for Option<T> {
    open spec fn pb_has_value(&self) -> bool {
        self is Some
    }

    open spec fn pb_value(&self) -> T {
        self->Some_0
    }

    fn pb_expect(self, msg: &str) -> (r: T) {
        let _ = msg;
        match self {
            Some(value) => value,
            None => vstd::pervasive::unreached(),
        }
    }
}

} // verus!
