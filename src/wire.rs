//! Wire format: decimal numbers and the `OPCODE arg,arg,...\r\n` line shape.

use vstd::prelude::*;
use vstd::utf8::encode_utf8;

verus! {

/// ASCII byte of a decimal digit.
pub open spec fn digit(d: nat) -> u8 {
    (48 + d) as u8
}

/// Decimal digits of `n`, most significant first, without leading zeros.
pub open spec fn digits(n: nat) -> Seq<u8>
    decreases n,
{
    if n < 10 {
        seq![digit(n)]
    } else {
        digits(n / 10) + seq![digit(n % 10)]
    }
}

/// Decimal text of an integer, with a leading `-` when it is negative.
pub open spec fn decimal(n: int) -> Seq<u8> {
    if n < 0 {
        seq![45u8] + digits((-n) as nat)
    } else {
        digits(n as nat)
    }
}

/// The fractional part of a number of thousandths `f < 1000`, as a point
/// and up to three digits, without trailing zeros; empty when `f` is zero.
pub open spec fn fraction(f: nat) -> Seq<u8> {
    if f == 0 {
        Seq::empty()
    } else if f % 100 == 0 {
        seq![46u8, digit(f / 100)]
    } else if f % 10 == 0 {
        seq![46u8, digit(f / 100), digit(f / 10 % 10)]
    } else {
        seq![46u8, digit(f / 100), digit(f / 10 % 10), digit(f % 10)]
    }
}

/// Shortest decimal text of the number `n / 1000`: `1500` is `1.5`, `25400`
/// is `25.4`, `-250` is `-0.25`, `3000` is `3`.
pub open spec fn thousandths(n: int) -> Seq<u8> {
    let m = if n < 0 {
        -n
    } else {
        n
    };
    let sign = if n < 0 {
        seq![45u8]
    } else {
        Seq::<u8>::empty()
    };
    sign + digits((m / 1000) as nat) + fraction((m % 1000) as nat)
}

/// The bytes of a text in UTF-8.
pub open spec fn utf8(s: Seq<char>) -> Seq<u8> {
    encode_utf8(s)
}

/// `b` between double quotes.
pub open spec fn quoted(b: Seq<u8>) -> Seq<u8> {
    seq![34u8] + b + seq![34u8]
}

/// `b` after one space.
pub open spec fn spaced(b: Seq<u8>) -> Seq<u8> {
    seq![32u8] + b
}

/// Arguments separated by commas.
pub open spec fn join(args: Seq<Seq<u8>>) -> Seq<u8>
    decreases args.len(),
{
    if args.len() == 0 {
        Seq::empty()
    } else if args.len() == 1 {
        args[0]
    } else {
        join(args.drop_last()) + seq![44u8] + args.last()
    }
}

/// Carriage return and line feed, the end of every command.
pub open spec fn crlf() -> Seq<u8> {
    seq![13u8, 10u8]
}

/// A whole command: the opcode, then the arguments after one space and
/// separated by commas, then CRLF. Without arguments the opcode stands alone.
pub open spec fn command_line(op: Seq<char>, args: Seq<Seq<u8>>) -> Seq<u8> {
    if args.len() == 0 {
        utf8(op) + crlf()
    } else {
        utf8(op) + seq![32u8] + join(args) + crlf()
    }
}

/// Appends the decimal digits of `n`.
pub fn push_digits(out: &mut Vec<u8>, n: u128)
    ensures
        final(out)@ == old(out)@ + digits(n as nat),
    decreases n,
{
    if n >= 10 {
        push_digits(out, n / 10);
    }
    let d: u8 = (n % 10) as u8;
    out.push(48 + d);
    assert(out@ =~= old(out)@ + digits(n as nat));
}

/// Appends the decimal text of `n`.
pub fn push_decimal(out: &mut Vec<u8>, n: i64)
    ensures
        final(out)@ == old(out)@ + decimal(n as int),
{
    if n < 0 {
        out.push(45);
        let m: u128 = (0 - (n as i128)) as u128;
        push_digits(out, m);
        assert(final(out)@ =~= old(out)@ + decimal(n as int));
    } else {
        push_digits(out, n as u128);
    }
}

/// Appends the shortest decimal text of `n / 1000`.
pub fn push_thousandths(out: &mut Vec<u8>, n: i32)
    ensures
        final(out)@ == old(out)@ + thousandths(n as int),
{
    let ghost start = out@;
    let m: u64 = if n < 0 {
        out.push(45);
        (0 - (n as i64)) as u64
    } else {
        n as u64
    };
    let ghost sign = out@.subrange(start.len() as int, out@.len() as int);
    assert(start + sign =~= out@);
    push_digits(out, (m / 1000) as u128);
    let ghost head = out@;
    let f: u64 = m % 1000;
    if f != 0 {
        out.push(46);
        out.push(48 + (f / 100) as u8);
        if f % 100 != 0 {
            out.push(48 + (f / 10 % 10) as u8);
            if f % 10 != 0 {
                out.push(48 + (f % 10) as u8);
            }
        }
    }
    assert(out@ =~= head + fraction(f as nat));
    assert(out@ =~= start + thousandths(n as int));
}

/// Appends every byte of `b`.
pub fn push_bytes(out: &mut Vec<u8>, b: &[u8])
    ensures
        final(out)@ == old(out)@ + b@,
{
    let ghost start = out@;
    let mut i: usize = 0;
    while i < b.len()
        invariant
            i <= b@.len(),
            out@ == start + b@.subrange(0, i as int),
        decreases b@.len() - i,
    {
        out.push(b[i]);
        i = i + 1;
        assert(out@ =~= start + b@.subrange(0, i as int));
    }
    assert(b@.subrange(0, i as int) =~= b@);
}

/// A command line under construction.
///
/// `bytes` always holds the opcode followed by the arguments given so far;
/// the last argument may still grow.
pub struct Line {
    bytes: Vec<u8>,
    has_args: bool,
    op: Ghost<Seq<char>>,
    args: Ghost<Seq<Seq<u8>>>,
}

proof fn lemma_join_extend_last(args: Seq<Seq<u8>>, b: Seq<u8>)
    requires
        args.len() > 0,
    ensures
        join(args.update(args.len() - 1, args.last() + b)) == join(args) + b,
{
    let n = args.update(args.len() - 1, args.last() + b);
    if args.len() == 1 {
        assert(n[0] == args[0] + b);
    } else {
        assert(n.drop_last() =~= args.drop_last());
        assert(join(n) == join(args.drop_last()) + seq![44u8] + (args.last() + b));
        assert(join(n) =~= join(args) + b);
    }
}

proof fn lemma_join_push_empty(args: Seq<Seq<u8>>)
    requires
        args.len() > 0,
    ensures
        join(args.push(Seq::empty())) == join(args) + seq![44u8],
{
    let n = args.push(Seq::empty());
    assert(n.drop_last() =~= args);
    assert(join(n) =~= join(args) + seq![44u8]);
}

impl Line {
    pub closed spec fn op(&self) -> Seq<char> {
        self.op@
    }

    pub closed spec fn args(&self) -> Seq<Seq<u8>> {
        self.args@
    }

    pub closed spec fn wf(&self) -> bool {
        &&& self.has_args == (self.args@.len() > 0)
        &&& if self.args@.len() == 0 {
            self.bytes@ == utf8(self.op@)
        } else {
            self.bytes@ == utf8(self.op@) + seq![32u8] + join(self.args@)
        }
    }

    /// A line with opcode `op` and no arguments yet.
    pub fn new(op: &str) -> (l: Line)
        ensures
            l.wf(),
            l.op() == op@,
            l.args() == Seq::<Seq<u8>>::empty(),
    {
        let mut bytes: Vec<u8> = Vec::new();
        push_bytes(&mut bytes, op.as_bytes());
        assert(bytes@ =~= utf8(op@));
        Line { bytes, has_args: false, op: Ghost(op@), args: Ghost(Seq::empty()) }
    }

    /// Starts a new, empty argument.
    pub fn begin(&mut self)
        requires
            old(self).wf(),
        ensures
            final(self).wf(),
            final(self).op() == old(self).op(),
            final(self).args() == old(self).args().push(Seq::empty()),
    {
        if !self.has_args {
            self.bytes.push(32);
            proof {
                let n = self.args@.push(Seq::<u8>::empty());
                assert(join(n) =~= Seq::<u8>::empty());
                assert(self.bytes@ =~= utf8(self.op@) + seq![32u8] + join(n));
            }
        } else {
            self.bytes.push(44);
            proof {
                lemma_join_push_empty(self.args@);
                assert(self.bytes@ =~= utf8(self.op@) + seq![32u8] + join(
                    self.args@.push(Seq::empty()),
                ));
            }
        }
        self.args = Ghost(self.args@.push(Seq::empty()));
        self.has_args = true;
    }

    /// Appends `b` to the last argument.
    pub fn put(&mut self, b: &[u8])
        requires
            old(self).wf(),
            old(self).args().len() > 0,
        ensures
            final(self).wf(),
            final(self).op() == old(self).op(),
            final(self).args() == old(self).args().update(
                old(self).args().len() - 1,
                old(self).args().last() + b@,
            ),
    {
        push_bytes(&mut self.bytes, b);
        proof {
            lemma_join_extend_last(self.args@, b@);
            assert(self.bytes@ =~= utf8(self.op@) + seq![32u8] + join(
                self.args@.update(self.args@.len() - 1, self.args@.last() + b@),
            ));
        }
        self.args = Ghost(self.args@.update(self.args@.len() - 1, self.args@.last() + b@));
    }

    /// Appends one byte to the last argument.
    pub fn put_byte(&mut self, c: u8)
        requires
            old(self).wf(),
            old(self).args().len() > 0,
        ensures
            final(self).wf(),
            final(self).op() == old(self).op(),
            final(self).args() == old(self).args().update(
                old(self).args().len() - 1,
                old(self).args().last() + seq![c],
            ),
    {
        self.bytes.push(c);
        proof {
            lemma_join_extend_last(self.args@, seq![c]);
            assert(self.bytes@ =~= utf8(self.op@) + seq![32u8] + join(
                self.args@.update(self.args@.len() - 1, self.args@.last() + seq![c]),
            ));
        }
        self.args = Ghost(self.args@.update(self.args@.len() - 1, self.args@.last() + seq![c]));
    }

    /// Appends the decimal text of `n` to the last argument.
    pub fn put_decimal(&mut self, n: i64)
        requires
            old(self).wf(),
            old(self).args().len() > 0,
        ensures
            final(self).wf(),
            final(self).op() == old(self).op(),
            final(self).args() == old(self).args().update(
                old(self).args().len() - 1,
                old(self).args().last() + decimal(n as int),
            ),
    {
        push_decimal(&mut self.bytes, n);
        proof {
            lemma_join_extend_last(self.args@, decimal(n as int));
            assert(self.bytes@ =~= utf8(self.op@) + seq![32u8] + join(
                self.args@.update(self.args@.len() - 1, self.args@.last() + decimal(n as int)),
            ));
        }
        self.args = Ghost(
            self.args@.update(self.args@.len() - 1, self.args@.last() + decimal(n as int)),
        );
    }

    /// Adds an argument made of the decimal text of `n`.
    pub fn arg_decimal(&mut self, n: i64)
        requires
            old(self).wf(),
        ensures
            final(self).wf(),
            final(self).op() == old(self).op(),
            final(self).args() == old(self).args().push(decimal(n as int)),
    {
        let ghost a = self.args@;
        self.begin();
        self.put_decimal(n);
        assert(self.args@ =~= a.push(decimal(n as int)));
    }

    /// Adds an argument made of the decimal digits of `n`.
    pub fn arg_digits(&mut self, n: u128)
        requires
            old(self).wf(),
        ensures
            final(self).wf(),
            final(self).op() == old(self).op(),
            final(self).args() == old(self).args().push(decimal(n as int)),
    {
        let ghost a = self.args@;
        self.begin();
        let mut v: Vec<u8> = Vec::new();
        push_digits(&mut v, n);
        self.put(v.as_slice());
        assert(v@ =~= decimal(n as int));
        assert(self.args@ =~= a.push(decimal(n as int)));
    }

    /// Adds an argument made of the single byte `c`.
    pub fn arg_byte(&mut self, c: u8)
        requires
            old(self).wf(),
        ensures
            final(self).wf(),
            final(self).op() == old(self).op(),
            final(self).args() == old(self).args().push(seq![c]),
    {
        let ghost a = self.args@;
        self.begin();
        self.put_byte(c);
        assert(self.args@ =~= a.push(seq![c]));
    }

    /// Adds an argument made of the bytes of `b`.
    pub fn arg_bytes(&mut self, b: &[u8])
        requires
            old(self).wf(),
        ensures
            final(self).wf(),
            final(self).op() == old(self).op(),
            final(self).args() == old(self).args().push(b@),
    {
        let ghost a = self.args@;
        self.begin();
        self.put(b);
        assert(self.args@ =~= a.push(b@));
    }

    /// Adds an argument made of the text `s`.
    pub fn arg_str(&mut self, s: &str)
        requires
            old(self).wf(),
        ensures
            final(self).wf(),
            final(self).op() == old(self).op(),
            final(self).args() == old(self).args().push(utf8(s@)),
    {
        self.arg_bytes(s.as_bytes());
    }

    /// Adds an argument made of the text `s` between double quotes, after one
    /// space when `space` is set.
    pub fn arg_quoted(&mut self, s: &str, space: bool)
        requires
            old(self).wf(),
        ensures
            final(self).wf(),
            final(self).op() == old(self).op(),
            final(self).args() == old(self).args().push(
                if space {
                    spaced(quoted(utf8(s@)))
                } else {
                    quoted(utf8(s@))
                },
            ),
    {
        let ghost a = self.args@;
        self.begin();
        if space {
            self.put_byte(32);
        }
        self.put_byte(34);
        self.put(s.as_bytes());
        self.put_byte(34);
        if space {
            assert(self.args@.last() =~= spaced(quoted(utf8(s@))));
            assert(self.args@ =~= a.push(spaced(quoted(utf8(s@)))));
        } else {
            assert(self.args@.last() =~= quoted(utf8(s@)));
            assert(self.args@ =~= a.push(quoted(utf8(s@))));
        }
    }

    /// Appends the shortest decimal text of `n / 1000` to the last argument.
    pub fn put_thousandths(&mut self, n: i32)
        requires
            old(self).wf(),
            old(self).args().len() > 0,
        ensures
            final(self).wf(),
            final(self).op() == old(self).op(),
            final(self).args() == old(self).args().update(
                old(self).args().len() - 1,
                old(self).args().last() + thousandths(n as int),
            ),
    {
        push_thousandths(&mut self.bytes, n);
        proof {
            lemma_join_extend_last(self.args@, thousandths(n as int));
            assert(self.bytes@ =~= utf8(self.op@) + seq![32u8] + join(
                self.args@.update(self.args@.len() - 1, self.args@.last() + thousandths(n as int)),
            ));
        }
        self.args = Ghost(
            self.args@.update(self.args@.len() - 1, self.args@.last() + thousandths(n as int)),
        );
    }

    /// The finished command, terminated by CRLF.
    pub fn finish(self) -> (r: Vec<u8>)
        requires
            self.wf(),
        ensures
            r@ == command_line(self.op(), self.args()),
    {
        let mut bytes = self.bytes;
        bytes.push(13);
        bytes.push(10);
        assert(bytes@ =~= command_line(self.op@, self.args@));
        bytes
    }
}

} // verus!
