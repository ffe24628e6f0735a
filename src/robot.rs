use vstd::prelude::*;
use vstd::string::StringSliceAdditionalSpecFns;

verus! {

/// Decimal digits of `n`, most significant first, as ASCII bytes.
pub open spec fn digits(n: nat) -> Seq<u8>
    decreases n,
{
    if n < 10 {
        seq![(48 + n) as u8]
    } else {
        digits(n / 10).push((48 + n % 10) as u8)
    }
}

/// `n` written in decimal ASCII, with a leading minus sign when negative.
pub open spec fn decimal(n: int) -> Seq<u8> {
    if n < 0 {
        seq![45u8] + digits((-n) as nat)
    } else {
        digits(n as nat)
    }
}

/// The robot controller channel that a directive is written to.
#[derive(Clone, Copy, Debug, PartialEq, Eq, Structural)]
pub enum Channel {
    /// Administrative commands (enable, disable, digital outputs).
    Dashboard,
    /// Motion commands.
    Motion,
}

/// One fire-and-forget command for the robot controller.
#[derive(Clone, Copy, Debug, PartialEq, Eq, Structural)]
pub enum Directive {
    EnableRobot,
    DisableRobot,
    /// Set digital output `index` to `status`.
    SetDo { index: i32, status: bool },
    /// Joint-interpolated move to the pose x, y, z, r.
    MovJ { x: i64, y: i64, z: i64, r: i64 },
}

pub open spec fn channel_of(d: Directive) -> Channel {
    match d {
        Directive::MovJ { .. } => Channel::Motion,
        _ => Channel::Dashboard,
    }
}

/// The newline-terminated ASCII line that carries a directive.
pub open spec fn directive_text(d: Directive) -> Seq<u8> {
    match d {
        Directive::EnableRobot => "EnableRobot()\n".spec_bytes(),
        Directive::DisableRobot => "DisableRobot()\n".spec_bytes(),
        Directive::SetDo { index, status } => "DO(".spec_bytes() + decimal(index as int) + ", ".spec_bytes()
            + decimal(if status { 1 } else { 0 }) + ")\n".spec_bytes(),
        Directive::MovJ { x, y, z, r } => "MovJ(".spec_bytes() + decimal(x as int) + ", ".spec_bytes()
            + decimal(y as int) + ", ".spec_bytes() + decimal(z as int) + ", ".spec_bytes()
            + decimal(r as int) + ")\n".spec_bytes(),
    }
}

fn push_bytes(out: &mut Vec<u8>, b: &[u8])
    ensures
        final(out)@ == old(out)@ + b@,
{
    let ghost start = out@;
    let mut i: usize = 0;
    while i < b.len()
        invariant
            i <= b@.len(),
            out@ == start + b@.take(i as int),
        decreases b@.len() - i,
    {
        out.push(b[i]);
        i = i + 1;
        assert(out@ =~= start + b@.take(i as int));
    }
    assert(b@.take(b@.len() as int) =~= b@);
}

fn push_digits(out: &mut Vec<u8>, n: u64)
    ensures
        final(out)@ == old(out)@ + digits(n as nat),
    decreases n,
{
    if n >= 10 {
        push_digits(out, n / 10);
    }
    out.push(48u8 + (n % 10) as u8);
    assert(out@ =~= old(out)@ + digits(n as nat));
}

/// Appends `n` in decimal.
pub fn push_decimal(out: &mut Vec<u8>, n: i64)
    ensures
        final(out)@ == old(out)@ + decimal(n as int),
{
    if n < 0 {
        out.push(45u8);
        let m: u64 = (-(n as i128)) as u64;
        push_digits(out, m);
        assert(out@ =~= old(out)@ + decimal(n as int));
    } else {
        push_digits(out, n as u64);
    }
}

impl Directive {
    pub fn channel(&self) -> (r: Channel)
        ensures
            r == channel_of(*self),
    {
        match self {
            Directive::MovJ { .. } => Channel::Motion,
            _ => Channel::Dashboard,
        }
    }

    /// The bytes to write on the directive's channel.
    pub fn to_bytes(&self) -> (r: Vec<u8>)
        ensures
            r@ == directive_text(*self),
    {
        let mut out: Vec<u8> = Vec::new();
        match *self {
            Directive::EnableRobot => {
                push_bytes(&mut out, "EnableRobot()\n".as_bytes());
            },
            Directive::DisableRobot => {
                push_bytes(&mut out, "DisableRobot()\n".as_bytes());
            },
            Directive::SetDo { index, status } => {
                push_bytes(&mut out, "DO(".as_bytes());
                push_decimal(&mut out, index as i64);
                push_bytes(&mut out, ", ".as_bytes());
                push_decimal(&mut out, if status { 1 } else { 0 });
                push_bytes(&mut out, ")\n".as_bytes());
            },
            Directive::MovJ { x, y, z, r } => {
                push_bytes(&mut out, "MovJ(".as_bytes());
                push_decimal(&mut out, x);
                push_bytes(&mut out, ", ".as_bytes());
                push_decimal(&mut out, y);
                push_bytes(&mut out, ", ".as_bytes());
                push_decimal(&mut out, z);
                push_bytes(&mut out, ", ".as_bytes());
                push_decimal(&mut out, r);
                push_bytes(&mut out, ")\n".as_bytes());
            },
        }
        assert(out@ =~= directive_text(*self));
        out
    }
}

} // verus!
