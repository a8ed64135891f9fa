//! The login banner: a template in which `\t` stands for the local time of
//! day, rendered as hours, minutes and seconds.
use vstd::prelude::*;

verus! {

/// A local time of day. The second may be 60 during a leap second.
#[derive(Debug, Clone, Copy, PartialEq, Eq, Structural)]
pub struct ClockTime {
    pub hour: u8,
    pub minute: u8,
    pub second: u8,
}

impl ClockTime {
    pub open spec fn wf(&self) -> bool {
        &&& self.hour < 24
        &&& self.minute < 60
        &&& self.second <= 60
    }
}

/// The decimal digit character for `d`.
pub open spec fn digit_char(d: int) -> char {
    if d == 0 {
        '0'
    } else if d == 1 {
        '1'
    } else if d == 2 {
        '2'
    } else if d == 3 {
        '3'
    } else if d == 4 {
        '4'
    } else if d == 5 {
        '5'
    } else if d == 6 {
        '6'
    } else if d == 7 {
        '7'
    } else if d == 8 {
        '8'
    } else {
        '9'
    }
}

/// `n` below 100 written with two digits, zero-padded.
pub open spec fn two_digits(n: int) -> Seq<char> {
    seq![digit_char(n / 10), digit_char(n % 10)]
}

/// The time of day as `HH:MM:SS`.
pub open spec fn clock_spec(t: ClockTime) -> Seq<char> {
    two_digits(t.hour as int) + seq![':'] + two_digits(t.minute as int) + seq![':'] + two_digits(
        t.second as int,
    )
}

/// What a banner template renders to at a given time text: `\t` becomes the
/// time, any other `\X` stays as it is, and a lone `\` at the end is dropped.
pub open spec fn render_spec(t: Seq<char>, time: Seq<char>) -> Seq<char>
    decreases t.len(),
{
    if t.len() == 0 {
        Seq::empty()
    } else if t[0] == '\\' {
        if t.len() == 1 {
            Seq::empty()
        } else if t[1] == 't' {
            time + render_spec(t.skip(2), time)
        } else {
            seq!['\\', t[1]] + render_spec(t.skip(2), time)
        }
    } else {
        seq![t[0]] + render_spec(t.skip(1), time)
    }
}

/// The path of a terminal device named by a short fragment.
pub open spec fn device_path_spec(fragment: Seq<char>) -> Seq<char> {
    seq!['/', 'd', 'e', 'v', '/'] + fragment
}

fn push_digit(s: &mut String, d: u8)
    requires
        d < 10,
    ensures
        final(s)@ == old(s)@.push(digit_char(d as int)),
{
    let digits: &str = "0123456789";
    proof {
        reveal_strlit("0123456789");
    }
    let one: &str = digits.substring_char(d as usize, d as usize + 1);
    assert(one@ =~= seq![digit_char(d as int)]);
    s.append(one);
}

fn push_two_digits(s: &mut String, n: u8)
    requires
        n < 100,
    ensures
        final(s)@ == old(s)@ + two_digits(n as int),
{
    push_digit(s, n / 10);
    push_digit(s, n % 10);
    assert(final(s)@ =~= old(s)@ + two_digits(n as int));
}

impl ClockTime {
    /// This time of day as `HH:MM:SS`.
    pub fn to_text(&self) -> (r: String)
        requires
            self.wf(),
        ensures
            r@ == clock_spec(*self),
    {
        let mut s = String::new();
        let colon: &str = ":";
        proof {
            reveal_strlit(":");
        }
        push_two_digits(&mut s, self.hour);
        s.append(colon);
        push_two_digits(&mut s, self.minute);
        s.append(colon);
        push_two_digits(&mut s, self.second);
        assert(s@ =~= clock_spec(*self));
        s
    }
}

/// The device path for `fragment`, under `/dev/`.
pub fn device_path(fragment: &str) -> (r: String)
    ensures
        r@ == device_path_spec(fragment@),
{
    let prefix: &str = "/dev/";
    proof {
        reveal_strlit("/dev/");
    }
    let mut s = String::from_str(prefix);
    s.append(fragment);
    assert(s@ =~= device_path_spec(fragment@));
    s
}

/// Renders `template` with `time` standing for each `\t`.
pub fn render_with(template: &str, time: &str) -> (r: String)
    ensures
        r@ == render_spec(template@, time@),
{
    let n: usize = template.unicode_len();
    let backslash: &str = "\\";
    proof {
        reveal_strlit("\\");
    }
    let mut out = String::new();
    let mut i: usize = 0;
    assert(template@.skip(0) =~= template@);
    assert(out@ + render_spec(template@, time@) =~= render_spec(template@, time@));
    while i < n
        invariant
            n == template@.len(),
            i <= n,
            backslash@ == seq!['\\'],
            render_spec(template@, time@) == out@ + render_spec(template@.skip(i as int), time@),
        decreases n - i,
    {
        let rest = Ghost(template@.skip(i as int));
        let c = template.get_char(i);
        if c == '\\' {
            if i + 1 == n {
                i = i + 1;
                assert(out@ + render_spec(template@.skip(i as int), time@) =~= out@);
            } else {
                let op = template.get_char(i + 1);
                assert(rest@.skip(2) =~= template@.skip(i + 2));
                if op == 't' {
                    out.append(time);
                } else {
                    out.append(backslash);
                    out.append(template.substring_char(i + 1, i + 2));
                }
                i = i + 2;
                assert(render_spec(template@, time@) =~= out@ + render_spec(template@.skip(i as int), time@));
            }
        } else {
            assert(rest@.skip(1) =~= template@.skip(i + 1));
            out.append(template.substring_char(i, i + 1));
            i = i + 1;
            assert(render_spec(template@, time@) =~= out@ + render_spec(template@.skip(i as int), time@));
        }
    }
    assert(template@.skip(n as int) =~= Seq::<char>::empty());
    assert(out@ =~= render_spec(template@, time@));
    out
}

/// The text of a banner template.
pub struct Issue(pub String);

impl Issue {
    /// Renders the banner with `\t` standing for the time of day `now`.
    pub fn render(self, now: ClockTime) -> (r: String)
        requires
            now.wf(),
        ensures
            r@ == render_spec(self.0@, clock_spec(now)),
    {
        let time = now.to_text();
        render_with(self.0.as_str(), time.as_str())
    }
}

} // verus!
