//! Keeping track of the processes of a connection and the order in which
//! they are stopped, and reporting how a process ended. The process handles
//! themselves (type `P`) belong to the caller, which starts, waits for and
//! kills them.

use vstd::prelude::*;

use crate::text::{decimal, push_char, push_decimal, push_str, to_string};

verus! {

/// The processes of a connection, in the order they were started.
pub struct ProcessSupervisor<P> {
    processes: Vec<P>,
}

impl<P> View for ProcessSupervisor<P> {
    type V = Seq<P>;

    /// The supervised processes, oldest first.
    closed spec fn view(&self) -> Seq<P> {
        self.processes@
    }
}

impl<P> ProcessSupervisor<P> {
    /// A supervisor of no processes.
    pub fn new() -> (s: Self)
        ensures
            s@ == Seq::<P>::empty(),
    {
        ProcessSupervisor { processes: Vec::new() }
    }

    /// Puts `process` under supervision, after those already supervised.
    pub fn add(&mut self, process: P)
        ensures
            final(self)@ == old(self)@.push(process),
    {
        self.processes.push(process);
    }

    /// How many processes are supervised.
    pub fn len(&self) -> (n: usize)
        ensures
            n == self@.len(),
    {
        self.processes.len()
    }

    /// Whether no process is supervised.
    pub fn is_empty(&self) -> (b: bool)
        ensures
            b == (self@.len() == 0),
    {
        self.processes.len() == 0
    }

    /// The supervised processes, for waiting on them.
    pub fn processes_mut(&mut self) -> (r: &mut Vec<P>)
        ensures
            r@ == old(self)@,
            final(self)@ == final(r)@,
    {
        &mut self.processes
    }

    /// Hands out every supervised process in the order they are to be
    /// stopped (the most recently started first: `openvpn` before
    /// `ck-client`), leaving none supervised.
    pub fn take_for_shutdown(&mut self) -> (r: Vec<P>)
        ensures
            r@ == old(self)@.reverse(),
            final(self)@ == Seq::<P>::empty(),
    {
        let mut out: Vec<P> = Vec::new();
        let ghost start = self.processes@;
        while self.processes.len() > 0
            invariant
                start.len() == self.processes@.len() + out@.len(),
                self.processes@ == start.take(self.processes@.len() as int),
                out@ == start.skip(self.processes@.len() as int).reverse(),
            decreases self.processes@.len(),
        {
            let ghost n = self.processes@.len();
            let p = self.processes.pop().unwrap();
            proof {
                assert(p == start[n - 1]);
                assert(start.skip(n - 1) =~= seq![start[n - 1]] + start.skip(n as int));
                assert(start.skip(n - 1).reverse() =~= start.skip(n as int).reverse().push(
                    start[n - 1],
                ));
                assert(self.processes@ =~= start.take(n - 1));
            }
            out.push(p);
        }
        assert(start.skip(0) =~= start);
        assert(self.processes@ =~= Seq::<P>::empty());
        out
    }
}

impl<P> Default for ProcessSupervisor<P> {
    /// A supervisor of no processes.
    fn default() -> (s: Self)
        ensures
            s@ == Seq::<P>::empty(),
    {
        Self::new()
    }
}

/// The decimal representation of a signed number.
pub open spec fn signed_decimal(n: int) -> Seq<char> {
    if n < 0 {
        seq!['-'] + decimal((-n) as nat)
    } else {
        decimal(n as nat)
    }
}

/// How an optional exit code is shown (`{:?}` of `Option<i32>`).
pub open spec fn exit_code_text(code: Option<i32>) -> Seq<char> {
    match code {
        Some(c) => "Some("@ + signed_decimal(c as int) + ")"@,
        None => "None"@,
    }
}

/// How a process ended: fine when it `succeeded`, otherwise the message
/// `"<name> exited with code <code>"`.
pub fn exit_report(name: &str, succeeded: bool, code: Option<i32>) -> (r: Result<(), String>)
    ensures
        r is Ok <==> succeeded,
        r matches Err(m) ==> m@ == name@ + " exited with code "@ + exit_code_text(code),
{
    if succeeded {
        return Ok(());
    }
    let mut m = to_string(name);
    push_str(&mut m, " exited with code ");
    match code {
        Some(c) => {
            push_str(&mut m, "Some(");
            if c < 0 {
                push_char(&mut m, '-');
                let magnitude: u64 = (0i64 - c as i64) as u64;
                push_decimal(&mut m, magnitude);
                assert(m@ == name@ + " exited with code "@ + "Some("@ + (seq!['-'] + decimal(
                    (-(c as int)) as nat,
                )));
            } else {
                push_decimal(&mut m, c as u64);
            }
            push_str(&mut m, ")");
            assert(m@ =~= name@ + " exited with code "@ + exit_code_text(code));
        },
        None => {
            push_str(&mut m, "None");
        },
    }
    Err(m)
}

} // verus!
