use vstd::arithmetic::power2::{lemma2_to64, lemma_pow2_adds, lemma_pow2_pos, lemma_pow2_unfold, pow2};
use vstd::prelude::*;

verus! {

/// The character of a decimal digit.
pub open spec fn digit_char(d: int) -> char {
    if d == 0 {
        '0'
    } else if d == 1 {
        '1'
    } else if d == 2 {
        '2'
    } else if d == 3 {
        '3'
    } else if d == 4 {
        '4'
    } else if d == 5 {
        '5'
    } else if d == 6 {
        '6'
    } else if d == 7 {
        '7'
    } else if d == 8 {
        '8'
    } else {
        '9'
    }
}

/// The value of a decimal digit character.
pub open spec fn digit_value(c: char) -> int {
    if c == '0' {
        0
    } else if c == '1' {
        1
    } else if c == '2' {
        2
    } else if c == '3' {
        3
    } else if c == '4' {
        4
    } else if c == '5' {
        5
    } else if c == '6' {
        6
    } else if c == '7' {
        7
    } else if c == '8' {
        8
    } else {
        9
    }
}

/// Decimal text of one octet, without leading zeros.
pub open spec fn octet_text(b: int) -> Seq<char> {
    if b < 10 {
        seq![digit_char(b)]
    } else if b < 100 {
        seq![digit_char(b / 10), digit_char(b % 10)]
    } else {
        seq![digit_char(b / 100), digit_char((b / 10) % 10), digit_char(b % 10)]
    }
}

/// The number that a text of one to three digits spells.
pub open spec fn octet_value(s: Seq<char>) -> int {
    if s.len() == 1 {
        digit_value(s[0])
    } else if s.len() == 2 {
        10 * digit_value(s[0]) + digit_value(s[1])
    } else {
        100 * digit_value(s[0]) + 10 * digit_value(s[1]) + digit_value(s[2])
    }
}

pub open spec fn dot_join(x: Seq<char>, y: Seq<char>) -> Seq<char> {
    x + seq!['.'] + y
}

pub open spec fn octet(a: u32, i: int) -> int {
    if i == 0 {
        (a >> 24u32) as int
    } else if i == 1 {
        ((a >> 16u32) & 255u32) as int
    } else if i == 2 {
        ((a >> 8u32) & 255u32) as int
    } else {
        (a & 255u32) as int
    }
}

/// The dotted-quad text of an IPv4 address, most significant octet first.
pub open spec fn dotted(a: u32) -> Seq<char> {
    dot_join(
        octet_text(octet(a, 0)),
        dot_join(octet_text(octet(a, 1)), dot_join(octet_text(octet(a, 2)), octet_text(octet(a, 3)))),
    )
}

pub proof fn lemma_octet_bounds(a: u32)
    ensures
        forall|i: int| 0 <= i < 4 ==> 0 <= #[trigger] octet(a, i) < 256,
{
    assert((a >> 24u32) < 256u32) by (bit_vector);
    assert(((a >> 16u32) & 255u32) < 256u32) by (bit_vector);
    assert(((a >> 8u32) & 255u32) < 256u32) by (bit_vector);
    assert((a & 255u32) < 256u32) by (bit_vector);
}

proof fn lemma_octet_text_value(b: int)
    requires
        0 <= b < 256,
    ensures
        octet_value(octet_text(b)) == b,
        1 <= octet_text(b).len() <= 3,
        !octet_text(b).contains('.'),
{
    let s = octet_text(b);
    assert(!s.contains('.')) by {
        if s.contains('.') {
            let k = choose|k: int| 0 <= k < s.len() && s[k] == '.';
            assert(s[k] != '.');
        }
    }
}

proof fn lemma_dot_split(x: Seq<char>, y: Seq<char>, u: Seq<char>, v: Seq<char>)
    requires
        dot_join(x, y) == dot_join(u, v),
        !x.contains('.'),
        !u.contains('.'),
    ensures
        x == u,
        y == v,
{
    let s = dot_join(x, y);
    if x.len() < u.len() {
        assert(s[x.len() as int] == '.');
        assert(dot_join(u, v)[x.len() as int] == u[x.len() as int]);
        assert(u.contains(u[x.len() as int]));
    } else if u.len() < x.len() {
        assert(dot_join(u, v)[u.len() as int] == '.');
        assert(s[u.len() as int] == x[u.len() as int]);
        assert(x.contains(x[u.len() as int]));
    }
    assert(x.len() == u.len());
    assert(x =~= s.subrange(0, x.len() as int));
    assert(u =~= dot_join(u, v).subrange(0, u.len() as int));
    assert(y =~= s.subrange(x.len() as int + 1, s.len() as int));
    assert(v =~= dot_join(u, v).subrange(u.len() as int + 1, s.len() as int));
}

/// Distinct addresses have distinct dotted-quad texts.
pub proof fn lemma_dotted_injective(a: u32, b: u32)
    requires
        dotted(a) == dotted(b),
    ensures
        a == b,
{
    lemma_octet_bounds(a);
    lemma_octet_bounds(b);
    let ta = |i: int| octet_text(octet(a, i));
    let tb = |i: int| octet_text(octet(b, i));
    lemma_octet_text_value(octet(a, 0));
    lemma_octet_text_value(octet(b, 0));
    lemma_octet_text_value(octet(a, 1));
    lemma_octet_text_value(octet(b, 1));
    lemma_octet_text_value(octet(a, 2));
    lemma_octet_text_value(octet(b, 2));
    lemma_octet_text_value(octet(a, 3));
    lemma_octet_text_value(octet(b, 3));
    lemma_dot_split(
        ta(0),
        dot_join(ta(1), dot_join(ta(2), ta(3))),
        tb(0),
        dot_join(tb(1), dot_join(tb(2), tb(3))),
    );
    lemma_dot_split(ta(1), dot_join(ta(2), ta(3)), tb(1), dot_join(tb(2), tb(3)));
    lemma_dot_split(ta(2), ta(3), tb(2), tb(3));
    assert(octet(a, 0) == octet(b, 0));
    assert(octet(a, 1) == octet(b, 1));
    assert(octet(a, 2) == octet(b, 2));
    assert(octet(a, 3) == octet(b, 3));
    assert(((a >> 24u32) == (b >> 24u32) && ((a >> 16u32) & 255u32) == ((b >> 16u32) & 255u32)
        && ((a >> 8u32) & 255u32) == ((b >> 8u32) & 255u32) && (a & 255u32) == (b & 255u32))
        ==> a == b) by (bit_vector);
}

fn digit_text(d: u8) -> (r: &'static str)
    requires
        d < 10,
    ensures
        r@ == seq![digit_char(d as int)],
{
    if d == 0 {
        proof { reveal_strlit("0"); }
        "0"
    } else if d == 1 {
        proof { reveal_strlit("1"); }
        "1"
    } else if d == 2 {
        proof { reveal_strlit("2"); }
        "2"
    } else if d == 3 {
        proof { reveal_strlit("3"); }
        "3"
    } else if d == 4 {
        proof { reveal_strlit("4"); }
        "4"
    } else if d == 5 {
        proof { reveal_strlit("5"); }
        "5"
    } else if d == 6 {
        proof { reveal_strlit("6"); }
        "6"
    } else if d == 7 {
        proof { reveal_strlit("7"); }
        "7"
    } else if d == 8 {
        proof { reveal_strlit("8"); }
        "8"
    } else {
        proof { reveal_strlit("9"); }
        "9"
    }
}

/// Appends the decimal text of `b` to `out`.
pub fn append_octet(out: &mut String, b: u8)
    ensures
        final(out)@ == old(out)@ + octet_text(b as int),
{
    if b < 10 {
        out.append(digit_text(b));
    } else if b < 100 {
        out.append(digit_text(b / 10));
        out.append(digit_text(b % 10));
    } else {
        out.append(digit_text(b / 100));
        out.append(digit_text((b / 10) % 10));
        out.append(digit_text(b % 10));
    }
    assert(final(out)@ =~= old(out)@ + octet_text(b as int));
}

/// Appends the dotted-quad text of `a` to `out`.
pub fn append_dotted(out: &mut String, a: u32)
    ensures
        final(out)@ == old(out)@ + dotted(a),
{
    proof { reveal_strlit("."); }
    let start = Ghost(out@);
    append_octet(out, (a >> 24u32) as u8);
    out.append(".");
    append_octet(out, ((a >> 16u32) & 255u32) as u8);
    out.append(".");
    append_octet(out, ((a >> 8u32) & 255u32) as u8);
    out.append(".");
    append_octet(out, (a & 255u32) as u8);
    proof {
        lemma_octet_bounds(a);
        assert(((a >> 24u32) as u8) as int == octet(a, 0));
        assert((((a >> 16u32) & 255u32) as u8) as int == octet(a, 1));
        assert((((a >> 8u32) & 255u32) as u8) as int == octet(a, 2));
        assert(((a & 255u32) as u8) as int == octet(a, 3));
        assert(final(out)@ =~= start@ + dotted(a));
    }
}

/// The dotted-quad text of an IPv4 address (`10.0.0.1`).
pub fn ipv4_text(a: u32) -> (r: String)
    ensures
        r@ == dotted(a),
{
    let mut out = String::new();
    append_dotted(&mut out, a);
    assert(out@ =~= dotted(a));
    out
}

/// The text of a network as an address response carries it: a single address
/// as `{address}/22`, any other network as `{address}/{length}`.
pub open spec fn host_ip_text(s: Subnet) -> Seq<char> {
    if s.prefix() == 32 {
        dotted(s.first()) + seq!['/', '2', '2']
    } else {
        dotted(s.first()) + seq!['/'] + octet_text(s.prefix() as int)
    }
}

/// The text of `s` as an address response carries it.
pub fn host_ip_string(s: &Subnet) -> (r: String)
    ensures
        r@ == host_ip_text(*s),
{
    let mut out = String::new();
    append_dotted(&mut out, s.first_address());
    if s.is_host_address() {
        proof { reveal_strlit("/22"); }
        out.append("/22");
    } else {
        proof { reveal_strlit("/"); }
        out.append("/");
        append_octet(&mut out, s.network_length());
    }
    assert(out@ =~= host_ip_text(*s));
    out
}

/// Relies on cidr::Ipv4Cidr::new: it accepts a network exactly when the length
/// is at most 32 and the address has no bit set past the length.
#[verifier::external_body]
fn cidr_accepts(base: u32, len: u8) -> (r: bool)
    ensures
        r == (len <= 32 && base as int % pow2((32 - len) as nat) as int == 0),
{
    cidr::Ipv4Cidr::new(base.into(), len).is_ok()
}

/// An IPv4 network: a first address whose host bits are zero, and a prefix length.
#[derive(Clone, Copy)]
pub struct Subnet {
    base: u32,
    len: u8,
}

/// The number of addresses in a network with the given prefix length.
pub open spec fn block_size(len: u8) -> nat {
    pow2((32 - len) as nat)
}

impl Subnet {
    #[verifier::type_invariant]
    spec fn well_formed(&self) -> bool {
        self.len <= 32 && self.base as int % block_size(self.len) as int == 0
    }

    pub closed spec fn first(&self) -> u32 {
        self.base
    }

    pub closed spec fn prefix(&self) -> u8 {
        self.len
    }

    pub open spec fn size(&self) -> nat {
        block_size(self.prefix())
    }

    pub open spec fn wf(&self) -> bool {
        self.prefix() <= 32 && self.first() as int % self.size() as int == 0
    }

    /// Whether `a` lies in the network.
    pub open spec fn has(&self, a: int) -> bool {
        self.first() <= a < self.first() + self.size()
    }

    /// The network with first address `base` and prefix length `len`; `None`
    /// where the length exceeds 32 or a bit past the length is set.
    pub fn from_parts(base: u32, len: u8) -> (r: Option<Subnet>)
        ensures
            r is Some <==> (len <= 32 && base as int % block_size(len) as int == 0),
            r matches Some(s) ==> s.wf() && s.first() == base && s.prefix() == len,
    {
        if cidr_accepts(base, len) {
            Some(Subnet { base, len })
        } else {
            None
        }
    }

    /// The network that holds the single address `a`.
    pub fn new_host(a: u32) -> (r: Subnet)
        ensures
            r.wf(),
            r.first() == a,
            r.prefix() == 32,
    {
        proof {
            vstd::arithmetic::power2::lemma2_to64();
        }
        Subnet { base: a, len: 32 }
    }

    /// Whether the network holds a single address.
    pub fn is_host_address(&self) -> (r: bool)
        ensures
            r == (self.prefix() == 32),
    {
        self.len == 32
    }

    pub fn first_address(&self) -> (r: u32)
        ensures
            r == self.first(),
    {
        self.base
    }

    pub fn network_length(&self) -> (r: u8)
        ensures
            r == self.prefix(),
    {
        self.len
    }

    /// The number of addresses in the network.
    pub fn address_count(&self) -> (r: u64)
        ensures
            self.wf(),
            r == self.size(),
            self.first() + self.size() <= 0x1_0000_0000,
    {
        proof {
            use_type_invariant(self);
        }
        let n: u8 = 32 - self.len;
        let mut c: u64 = 1;
        let mut i: u8 = 0;
        proof {
            lemma2_to64();
        }
        while i < n
            invariant
                i <= n <= 32,
                n == 32 - self.len,
                c == pow2(i as nat),
                pow2(32) == 0x1_0000_0000,
            decreases n - i,
        {
            proof {
                lemma_pow2_unfold((i + 1) as nat);
                lemma_pow2_adds((i + 1) as nat, (32 - i - 1) as nat);
                lemma_pow2_pos((32 - i - 1) as nat);
                assert(pow2((i + 1) as nat) <= pow2(32)) by (nonlinear_arith)
                    requires
                        pow2((i + 1) as nat) * pow2((32 - i - 1) as nat) == pow2(32),
                        pow2((32 - i - 1) as nat) >= 1,
                ;
            }
            c = c * 2;
            i = i + 1;
        }
        proof {
            lemma_pow2_adds(n as nat, self.len as nat);
            let m = pow2(self.len as nat) as int;
            let s = c as int;
            let k = self.base as int / s;
            lemma_pow2_pos(n as nat);
            assert(self.base as int == k * s) by {
                vstd::arithmetic::div_mod::lemma_fundamental_div_mod(self.base as int, s);
            }
            assert(self.base + s <= 0x1_0000_0000) by (nonlinear_arith)
                requires
                    self.base as int == k * s,
                    s * m == 0x1_0000_0000,
                    s > 0,
                    self.base < 0x1_0000_0000,
            {
                assert(k * s < m * s);
                assert(k < m);
                assert(k + 1 <= m);
                assert((k + 1) * s <= m * s);
            }
        }
        c
    }
}

} // verus!
