//! The status line shown while the network runs, and the clock that counts
//! its running time.
use vstd::prelude::*;

verus! {

/// The decimal digit character for `d`.
pub open spec fn digit_char(d: nat) -> char {
    (d + 48) as char
}

/// `n` in decimal, without leading zeros.
pub open spec fn decimal(n: nat) -> Seq<char>
    decreases n,
{
    if n < 10 {
        seq![digit_char(n)]
    } else {
        decimal(n / 10).push(digit_char(n % 10))
    }
}

/// `n` in two decimal digits, zero-padded.
pub open spec fn two_digits(n: nat) -> Seq<char> {
    seq![digit_char((n / 10) % 10), digit_char(n % 10)]
}

/// A running time of `t` seconds as `[d:][hh:]mm:ss`: the days only when
/// there are any, the hours when there are days or hours.
pub open spec fn clock_text(t: nat) -> Seq<char> {
    let sec = t % 60;
    let min = (t / 60) % 60;
    let hour = (t / 3600) % 24;
    let day = t / 86400;
    (if day > 0 {
        decimal(day).push(':')
    } else {
        Seq::empty()
    }) + (if day > 0 || hour > 0 {
        two_digits(hour).push(':')
    } else {
        Seq::empty()
    }) + two_digits(min).push(':') + two_digits(sec)
}

/// Relies on `String::push`: appends one character.
#[verifier::external_body]
fn push_char(s: &mut String, c: char)
    ensures
        final(s)@ == old(s)@.push(c),
{
    s.push(c)
}

/// Relies on `String::push_str`: appends a string.
#[verifier::external_body]
fn push_str(s: &mut String, t: &str)
    ensures
        final(s)@ == old(s)@ + t@,
{
    s.push_str(t)
}

fn digit(d: u64) -> (c: char)
    requires
        d < 10,
    ensures
        c == digit_char(d as nat),
{
    ((d as u8) + 48) as char
}

fn push_decimal(s: &mut String, n: u64)
    ensures
        final(s)@ == old(s)@ + decimal(n as nat),
    decreases n,
{
    if n >= 10 {
        push_decimal(s, n / 10);
    }
    push_char(s, digit(n % 10));
    proof {
        if n < 10 {
            assert(old(s)@ + decimal(n as nat) =~= old(s)@.push(digit_char(n as nat)));
        } else {
            assert((old(s)@ + decimal((n / 10) as nat)).push(digit_char((n % 10) as nat)) =~= old(
                s,
            )@ + decimal(n as nat));
        }
    }
}

fn push_two_digits(s: &mut String, n: u64)
    ensures
        final(s)@ == old(s)@ + two_digits(n as nat),
{
    push_char(s, digit((n / 10) % 10));
    push_char(s, digit(n % 10));
    assert(final(s)@ =~= old(s)@ + two_digits(n as nat)) by {
        assert(s@ =~= old(s)@ + two_digits(n as nat));
    }
}

/// A running time of `run_time` seconds as `[d:][hh:]mm:ss`.
pub fn format_run_time(run_time: u64) -> (r: String)
    ensures
        r@ == clock_text(run_time as nat),
{
    let sec = run_time % 60;
    let min = (run_time / 60) % 60;
    let hour = (run_time / 3600) % 24;
    let day = run_time / 86400;
    let mut r = String::new();
    if day > 0 {
        push_decimal(&mut r, day);
        push_char(&mut r, ':');
    }
    if day > 0 || hour > 0 {
        push_two_digits(&mut r, hour);
        push_char(&mut r, ':');
    }
    push_two_digits(&mut r, min);
    push_char(&mut r, ':');
    push_two_digits(&mut r, sec);
    assert(r@ =~= clock_text(run_time as nat));
    r
}

/// The status line for a network that runs at address `ip` since `run_time`
/// seconds; empty while there is no address.
pub fn running_status(ip: &str, run_time: u64) -> (r: String)
    ensures
        ip@.len() == 0 ==> r@ == Seq::<char>::empty(),
        ip@.len() > 0 ==> r@ == "HiPer 正在运行！\n网络地址："@ + ip@ + "\n运行时间："@ + clock_text(
            run_time as nat,
        ),
{
    let mut r = String::new();
    if ip.is_empty() {
        return r;
    }
    push_str(&mut r, "HiPer 正在运行！\n网络地址：");
    push_str(&mut r, ip);
    push_str(&mut r, "\n运行时间：");
    let clock = format_run_time(run_time);
    push_str(&mut r, clock.as_str());
    r
}

/// The clock behind the running time: the seconds counted, and whether its
/// one-second timer is armed.
#[derive(Clone, Copy, Debug, PartialEq, Eq, Structural)]
pub struct RunClock {
    pub run_time: u64,
    pub ticking: bool,
}

impl RunClock {
    /// A stopped clock at zero.
    pub fn new() -> (r: RunClock)
        ensures
            r == (RunClock { run_time: 0, ticking: false }),
    {
        RunClock { run_time: 0, ticking: false }
    }

    /// The status view appeared: the clock starts ticking. Returns whether a
    /// timer is to be armed.
    pub fn on_added(&mut self) -> (arm: bool)
        ensures
            arm,
            *final(self) == (RunClock { run_time: old(self).run_time, ticking: true }),
    {
        self.ticking = true;
        true
    }

    /// A timer fired; `ours` tells whether it is the clock's own. A ticking
    /// clock counts one second on its own timer and re-arms it. Returns whether
    /// a timer is to be armed.
    pub fn on_timer(&mut self, ours: bool) -> (arm: bool)
        requires
            old(self).run_time < u64::MAX,
        ensures
            arm == (ours && old(self).ticking),
            arm ==> final(self).run_time == old(self).run_time + 1,
            !arm ==> final(self).run_time == old(self).run_time,
            final(self).ticking == old(self).ticking,
    {
        if ours && self.ticking {
            self.run_time = self.run_time + 1;
            true
        } else {
            false
        }
    }

    /// A new network address was set: an empty one stops the clock, any other
    /// restarts it from zero. Returns whether a timer is to be armed.
    pub fn on_address(&mut self, ip: &str) -> (arm: bool)
        ensures
            arm == (ip@.len() > 0),
            arm ==> *final(self) == (RunClock { run_time: 0, ticking: true }),
            !arm ==> *final(self) == (RunClock { run_time: old(self).run_time, ticking: false }),
    {
        if ip.is_empty() {
            self.ticking = false;
            false
        } else {
            self.run_time = 0;
            self.ticking = true;
            true
        }
    }
}

} // verus!
