//! Player identities and their cookie encoding.
use vstd::prelude::*;

verus! {

/// The lowercase hexadecimal digit for `d` (which is below 16).
pub open spec fn hex_char(d: nat) -> char {
    if d < 10 {
        seq!['0', '1', '2', '3', '4', '5', '6', '7', '8', '9'][d as int]
    } else {
        seq!['a', 'b', 'c', 'd', 'e', 'f'][d - 10]
    }
}

/// The value of a lowercase hexadecimal digit.
pub open spec fn digit_value(c: char) -> nat {
    if c == '0' { 0 } else if c == '1' { 1 } else if c == '2' { 2 } else if c == '3' { 3 }
    else if c == '4' { 4 } else if c == '5' { 5 } else if c == '6' { 6 } else if c == '7' { 7 }
    else if c == '8' { 8 } else if c == '9' { 9 } else if c == 'a' { 10 } else if c == 'b' { 11 }
    else if c == 'c' { 12 } else if c == 'd' { 13 } else if c == 'e' { 14 } else { 15 }
}

/// Reading a digit back gives the value it was written for.
proof fn lemma_digit_value(d: nat)
    requires
        d < 16,
    ensures
        digit_value(hex_char(d)) == d,
{
    if d < 10 {
        let s = seq!['0', '1', '2', '3', '4', '5', '6', '7', '8', '9'];
        assert(s[0] == '0' && s[1] == '1' && s[2] == '2' && s[3] == '3' && s[4] == '4');
        assert(s[5] == '5' && s[6] == '6' && s[7] == '7' && s[8] == '8' && s[9] == '9');
    } else {
        let s = seq!['a', 'b', 'c', 'd', 'e', 'f'];
        assert(s[0] == 'a' && s[1] == 'b' && s[2] == 'c' && s[3] == 'd' && s[4] == 'e' && s[5] == 'f');
    }
}

/// The last `n` hexadecimal digits of `v`, most significant first.
pub open spec fn hex_digits(v: nat, n: nat) -> Seq<char>
    decreases n,
{
    if n == 0 {
        Seq::empty()
    } else {
        hex_digits(v / 16, (n - 1) as nat).push(hex_char(v % 16))
    }
}

/// Sixteen to the power `n`.
pub open spec fn pow16(n: nat) -> nat
    decreases n,
{
    if n == 0 {
        1
    } else {
        16 * pow16((n - 1) as nat)
    }
}

/// The number that a text of lowercase hexadecimal digits denotes.
pub open spec fn hex_value(s: Seq<char>) -> nat
    decreases s.len(),
{
    if s.len() == 0 {
        0
    } else {
        hex_value(s.drop_last()) * 16 + digit_value(s.last())
    }
}

/// The digits of `v` have the length asked for and denote `v` modulo `16^n`.
proof fn lemma_hex_digits(v: nat, n: nat)
    ensures
        hex_digits(v, n).len() == n,
        hex_value(hex_digits(v, n)) == v % pow16(n),
    decreases n,
{
    if n > 0 {
        let m = (n - 1) as nat;
        lemma_hex_digits(v / 16, m);
        let d = hex_digits(v, n);
        assert(d.drop_last() == hex_digits(v / 16, m));
        lemma_digit_value(v % 16);
        assert(pow16(m) > 0) by {
            lemma_pow16_positive(m);
        }
        vstd::arithmetic::div_mod::lemma_mod_breakdown(v as int, 16, pow16(m) as int);
    }
}

/// Powers of sixteen are positive.
proof fn lemma_pow16_positive(n: nat)
    ensures
        pow16(n) > 0,
    decreases n,
{
    if n > 0 {
        lemma_pow16_positive((n - 1) as nat);
    }
}

/// The hyphenated text of a 128-bit identifier: 32 lowercase hexadecimal
/// digits, most significant first, grouped 8-4-4-4-12.
#[verifier::opaque]
pub open spec fn hyphenated(id: u128) -> Seq<char> {
    let d = hex_digits(id as nat, 32);
    d.subrange(0, 8) + seq!['-'] + d.subrange(8, 12) + seq!['-'] + d.subrange(12, 16) + seq!['-']
        + d.subrange(16, 20) + seq!['-'] + d.subrange(20, 32)
}

/// What the identifier parser makes of a text: the value, or `None` where
/// the text is no identifier.
pub uninterp spec fn parsed_uuid(s: Seq<char>) -> Option<u128>;

/// Two identifiers with the same hyphenated text are equal.
pub proof fn lemma_hyphenated_injective(a: u128, b: u128)
    requires
        hyphenated(a) == hyphenated(b),
    ensures
        a == b,
{
    reveal(hyphenated);
    let da = hex_digits(a as nat, 32);
    let db = hex_digits(b as nat, 32);
    lemma_hex_digits(a as nat, 32);
    lemma_hex_digits(b as nat, 32);
    let h = hyphenated(a);
    assert(da == h.subrange(0, 8) + h.subrange(9, 13) + h.subrange(14, 18) + h.subrange(19, 23)
        + h.subrange(24, 36));
    assert(db == h.subrange(0, 8) + h.subrange(9, 13) + h.subrange(14, 18) + h.subrange(19, 23)
        + h.subrange(24, 36));
    assert(pow16(32) == 0x1_0000_0000_0000_0000_0000_0000_0000_0000) by {
        reveal_with_fuel(pow16, 33);
    }
}

/// The identifier that a text denotes: for the hyphenated text of an
/// identifier, that identifier; otherwise what the parser makes of it.
pub open spec fn uuid_of(s: Seq<char>) -> Option<u128> {
    if exists|v: u128| hyphenated(v) == s {
        Some(choose|v: u128| hyphenated(v) == s)
    } else {
        parsed_uuid(s)
    }
}

/// Relies on uuid's `Uuid::from_u128` and its hyphenated `Display`: the
/// identifier's bytes in big-endian order, as lowercase hexadecimal in
/// groups of 8-4-4-4-12.
#[verifier::external_body]
fn uuid_text(id: u128) -> (r: String)
    ensures
        r@ == hyphenated(id),
{
    uuid::Uuid::from_u128(id).hyphenated().to_string()
}

/// Relies on uuid's `Uuid::parse_str` and `Uuid::as_u128`: a hyphenated
/// text (in either case) gives back the value it was written from.
#[verifier::external_body]
fn parse_uuid(s: &str) -> (r: Option<u128>)
    ensures
        forall|v: u128| hyphenated(v) == s@ ==> r == Some(v),
        (forall|v: u128| hyphenated(v) != s@) ==> r == parsed_uuid(s@),
{
    match uuid::Uuid::parse_str(s) {
        Ok(u) => Some(u.as_u128()),
        Err(_) => None,
    }
}

/// Relies on uuid's `Uuid::new_v4` and `Uuid::as_u128`: the identifier is
/// random, but for its version nibble, which is 4, and its two variant bits,
/// which are `10`.
#[verifier::external_body]
fn random_id() -> (r: u128)
    ensures
        (r >> 76u128) & 15u128 == 4u128,
        (r >> 62u128) & 3u128 == 2u128,
{
    uuid::Uuid::new_v4().as_u128()
}

/// The identity of one client session: an opaque 128-bit identifier, minted
/// once and never changed.
#[derive(Clone, Copy, Debug, PartialEq, Eq, Hash, PartialOrd, Ord, Structural)]
pub struct Player {
    pub id: u128,
}

/// The text that opens a cookie value.
pub open spec fn cookie_prefix() -> Seq<char> {
    seq!['{', '"', 'i', 'd', '"', ':', '"']
}

/// The text that closes a cookie value.
pub open spec fn cookie_suffix() -> Seq<char> {
    seq!['"', '}']
}

/// The cookie value that carries an identity.
pub open spec fn cookie_text(id: u128) -> Seq<char> {
    cookie_prefix() + hyphenated(id) + cookie_suffix()
}

/// Whether a cookie value has the frame round an identifier.
pub open spec fn is_framed(s: Seq<char>) -> bool {
    &&& s.len() >= cookie_prefix().len() + cookie_suffix().len()
    &&& s.subrange(0, cookie_prefix().len() as int) == cookie_prefix()
    &&& s.subrange(s.len() - cookie_suffix().len(), s.len() as int) == cookie_suffix()
}

/// The text between the frame of a cookie value.
pub open spec fn cookie_inner(s: Seq<char>) -> Seq<char> {
    s.subrange(cookie_prefix().len() as int, s.len() - cookie_suffix().len())
}

/// The identity that a cookie value carries, if any.
pub open spec fn cookie_player(s: Seq<char>) -> Option<Player> {
    if is_framed(s) {
        match uuid_of(cookie_inner(s)) {
            Some(v) => Some(Player { id: v }),
            None => None,
        }
    } else {
        None
    }
}

impl Player {
    /// Mints a fresh random identity: a version-4 identifier, whose version
    /// nibble is 4 and whose two variant bits are `10`.
    pub fn new() -> (r: Player)
        ensures
            (r.id >> 76u128) & 15u128 == 4u128,
            (r.id >> 62u128) & 3u128 == 2u128,
    {
        Player { id: random_id() }
    }

    /// The identity with the given identifier.
    pub fn from_id(id: u128) -> (r: Player)
        ensures
            r.id == id,
    {
        Player { id }
    }

    /// The identifier's hyphenated text.
    pub fn id_text(&self) -> (r: String)
        ensures
            r@ == hyphenated(self.id),
    {
        uuid_text(self.id)
    }

    /// The display form of the identity: `player ` and the identifier.
    pub fn describe(&self) -> (r: String)
        ensures
            r@ == seq!['p', 'l', 'a', 'y', 'e', 'r', ' '] + hyphenated(self.id),
    {
        let mut r = String::from_str("player ");
        proof {
            reveal_strlit("player ");
        }
        let t = uuid_text(self.id);
        r.append(t.as_str());
        r
    }

    /// Encodes the identity as a cookie value.
    pub fn to_cookie_value(&self) -> (r: String)
        ensures
            r@ == cookie_text(self.id),
    {
        let mut r = String::from_str("{\"id\":\"");
        proof {
            reveal_strlit("{\"id\":\"");
            reveal_strlit("\"}");
        }
        let t = uuid_text(self.id);
        r.append(t.as_str());
        r.append("\"}");
        r
    }
    /// Decodes a cookie value: the framed identifier text, parsed.
    pub fn from_cookie_value(s: &str) -> (r: Option<Player>)
        ensures
            r == cookie_player(s@),
    {
        let n = s.unicode_len();
        if n < 9 {
            return None;
        }
        let head = s.substring_char(0, 7);
        let tail = s.substring_char(n - 2, n);
        let inner = s.substring_char(7, n - 2);
        proof {
            reveal_strlit("{\"id\":\"");
            reveal_strlit("\"}");
        }
        assert("{\"id\":\""@ == cookie_prefix());
        assert("\"}"@ == cookie_suffix());
        if !same_text(head, "{\"id\":\"") || !same_text(tail, "\"}") {
            return None;
        }
        let r = parse_uuid(inner);
        proof {
            if exists|v: u128| hyphenated(v) == inner@ {
                let w = choose|v: u128| hyphenated(v) == inner@;
                assert(r == Some(w));
            }
        }
        match r {
            Some(v) => Some(Player { id: v }),
            None => None,
        }
    }
}

/// Whether two texts hold the same characters.
fn same_text(a: &str, b: &str) -> (r: bool)
    ensures
        r == (a@ == b@),
{
    let n = a.unicode_len();
    if n != b.unicode_len() {
        return false;
    }
    let mut i: usize = 0;
    while i < n
        invariant
            n == a@.len(),
            n == b@.len(),
            i <= n,
            a@.subrange(0, i as int) == b@.subrange(0, i as int),
        decreases n - i,
    {
        if a.get_char(i) != b.get_char(i) {
            return false;
        }
        assert(a@.subrange(0, i + 1) == a@.subrange(0, i as int).push(a@[i as int]));
        assert(b@.subrange(0, i + 1) == b@.subrange(0, i as int).push(b@[i as int]));
        i = i + 1;
    }
    assert(a@ == a@.subrange(0, n as int));
    assert(b@ == b@.subrange(0, n as int));
    true
}

/// Decoding the cookie value of an identity gives that identity back.
pub proof fn lemma_cookie_round_trip(p: Player)
    ensures
        cookie_player(cookie_text(p.id)) == Some(p),
{
    let s = cookie_text(p.id);
    let h = hyphenated(p.id);
    assert(s.subrange(0, 7) == cookie_prefix());
    assert(s.subrange(s.len() - 2, s.len() as int) == cookie_suffix());
    assert(cookie_inner(s) == h);
    let v = choose|v: u128| hyphenated(v) == h;
    lemma_hyphenated_injective(v, p.id);
}

} // verus!
