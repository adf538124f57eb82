//! Plain-value models of the AMQP metadata that the engine's logic reads:
//! header field values, queue declare options and queue arguments.

use vstd::prelude::*;
use vstd::string::StringExecFns;

verus! {

/// An AMQP header field value, as far as the engine's own logic inspects it.
///
/// Field values whose contents the engine never examines beyond rendering
/// them (floats, decimals, arrays, nested tables, byte arrays, timestamps,
/// short strings) are carried in [`HeaderValue::Opaque`] as their rendered
/// text, produced at the broker boundary.
#[derive(Debug, PartialEq, Eq)]
pub enum HeaderValue {
    /// A boolean field value.
    Boolean(bool),
    /// A signed 8-bit field value.
    ShortShortInt(i8),
    /// An unsigned 8-bit field value.
    ShortShortUInt(u8),
    /// A signed 16-bit field value.
    ShortInt(i16),
    /// An unsigned 16-bit field value.
    ShortUInt(u16),
    /// A signed 32-bit field value.
    LongInt(i32),
    /// An unsigned 32-bit field value.
    LongUInt(u32),
    /// A signed 64-bit field value.
    LongLongInt(i64),
    /// A long string field value.
    LongString(String),
    /// The absent field value.
    Void,
    /// Any other field value, carried as its rendered text.
    Opaque(String),
}

/// The rendered text of a header field value: strings render as themselves,
/// booleans as `true` or `false`, numbers in decimal, the absent value as
/// `Void`, and any other value as the text it was carried with.
pub open spec fn header_value_display(v: HeaderValue) -> Seq<char> {
    match v {
        HeaderValue::Boolean(b) => if b {
            "true"@
        } else {
            "false"@
        },
        HeaderValue::ShortShortInt(x) => int_dec_str(x as int),
        HeaderValue::ShortShortUInt(x) => dec_str(x as nat),
        HeaderValue::ShortInt(x) => int_dec_str(x as int),
        HeaderValue::ShortUInt(x) => dec_str(x as nat),
        HeaderValue::LongInt(x) => int_dec_str(x as int),
        HeaderValue::LongUInt(x) => dec_str(x as nat),
        HeaderValue::LongLongInt(x) => int_dec_str(x as int),
        HeaderValue::LongString(s) => s@,
        HeaderValue::Void => "Void"@,
        HeaderValue::Opaque(s) => s@,
    }
}

impl HeaderValue {
    /// Renders the value as text, as [`header_value_display`] describes.
    pub fn display_string(&self) -> (s: String)
        ensures
            s@ == header_value_display(*self),
    {
        match self {
            HeaderValue::Boolean(b) => if *b {
                "true".to_owned()
            } else {
                "false".to_owned()
            },
            HeaderValue::ShortShortInt(x) => i64_to_decimal(*x as i64),
            HeaderValue::ShortShortUInt(x) => u64_to_decimal(*x as u64),
            HeaderValue::ShortInt(x) => i64_to_decimal(*x as i64),
            HeaderValue::ShortUInt(x) => u64_to_decimal(*x as u64),
            HeaderValue::LongInt(x) => i64_to_decimal(*x as i64),
            HeaderValue::LongUInt(x) => u64_to_decimal(*x as u64),
            HeaderValue::LongLongInt(x) => i64_to_decimal(*x),
            HeaderValue::LongString(s) => clone_string(s),
            HeaderValue::Void => "Void".to_owned(),
            HeaderValue::Opaque(s) => clone_string(s),
        }
    }

    /// Returns a value equal to this one.
    pub fn duplicate(&self) -> (r: HeaderValue)
        ensures
            r == *self,
    {
        match self {
            HeaderValue::Boolean(b) => HeaderValue::Boolean(*b),
            HeaderValue::ShortShortInt(v) => HeaderValue::ShortShortInt(*v),
            HeaderValue::ShortShortUInt(v) => HeaderValue::ShortShortUInt(*v),
            HeaderValue::ShortInt(v) => HeaderValue::ShortInt(*v),
            HeaderValue::ShortUInt(v) => HeaderValue::ShortUInt(*v),
            HeaderValue::LongInt(v) => HeaderValue::LongInt(*v),
            HeaderValue::LongUInt(v) => HeaderValue::LongUInt(*v),
            HeaderValue::LongLongInt(v) => HeaderValue::LongLongInt(*v),
            HeaderValue::LongString(s) => HeaderValue::LongString(clone_string(s)),
            HeaderValue::Void => HeaderValue::Void,
            HeaderValue::Opaque(s) => HeaderValue::Opaque(clone_string(s)),
        }
    }
}

/// Clones a string; the copy equals the original.
pub fn clone_string(s: &String) -> (r: String)
    ensures
        r == *s,
{
    s.clone()
}

/// The character of one decimal digit.
pub open spec fn dec_digit(d: int) -> char {
    if d == 0 {
        '0'
    } else if d == 1 {
        '1'
    } else if d == 2 {
        '2'
    } else if d == 3 {
        '3'
    } else if d == 4 {
        '4'
    } else if d == 5 {
        '5'
    } else if d == 6 {
        '6'
    } else if d == 7 {
        '7'
    } else if d == 8 {
        '8'
    } else {
        '9'
    }
}

/// The decimal rendering of a natural number, without leading zeroes (except
/// for zero itself).
pub open spec fn dec_str(n: nat) -> Seq<char>
    decreases n,
{
    if n < 10 {
        seq![dec_digit(n as int)]
    } else {
        dec_str(n / 10) + seq![dec_digit((n % 10) as int)]
    }
}

/// The decimal rendering of an integer: a minus sign before the magnitude
/// for negative numbers.
pub open spec fn int_dec_str(v: int) -> Seq<char> {
    if v < 0 {
        seq!['-'] + dec_str((-v) as nat)
    } else {
        dec_str(v as nat)
    }
}

/// The one-character string of one decimal digit.
fn digit_str(d: u64) -> (r: &'static str)
    requires
        d < 10,
    ensures
        r@ =~= seq![dec_digit(d as int)],
{
    proof {
        reveal_strlit("0");
        reveal_strlit("1");
        reveal_strlit("2");
        reveal_strlit("3");
        reveal_strlit("4");
        reveal_strlit("5");
        reveal_strlit("6");
        reveal_strlit("7");
        reveal_strlit("8");
        reveal_strlit("9");
    }
    match d {
        0 => "0",
        1 => "1",
        2 => "2",
        3 => "3",
        4 => "4",
        5 => "5",
        6 => "6",
        7 => "7",
        8 => "8",
        _ => "9",
    }
}

/// The digits collected least-significant first, read back as characters in
/// display order.
pub open spec fn rev_digit_chars(ds: Seq<u64>) -> Seq<char> {
    Seq::new(ds.len(), |i: int| dec_digit(ds[ds.len() - 1 - i] as int))
}

/// Renders a number in decimal.
pub fn u64_to_decimal(n: u64) -> (s: String)
    ensures
        s@ == dec_str(n as nat),
{
    let mut digits: Vec<u64> = Vec::new();
    digits.push(n % 10);
    let mut rest: u64 = n / 10;
    proof {
        assert(rev_digit_chars(digits@) =~= seq![dec_digit((n % 10) as int)]);
        if rest > 0 {
            assert(dec_str(n as nat) =~= dec_str(rest as nat) + rev_digit_chars(digits@));
        } else {
            assert(dec_str(n as nat) =~= rev_digit_chars(digits@));
        }
    }
    while rest > 0
        invariant
            forall|i: int| 0 <= i < digits@.len() ==> digits@[i] < 10,
            if rest > 0 {
                dec_str(n as nat) =~= dec_str(rest as nat) + rev_digit_chars(digits@)
            } else {
                dec_str(n as nat) =~= rev_digit_chars(digits@)
            },
        decreases rest,
    {
        let d: u64 = rest % 10;
        let next: u64 = rest / 10;
        proof {
            let ds = digits@.push(d);
            assert(rev_digit_chars(ds) =~= seq![dec_digit(d as int)] + rev_digit_chars(digits@));
            if rest >= 10 {
                assert(dec_str(rest as nat) == dec_str((rest / 10) as nat) + seq![
                    dec_digit((rest % 10) as int),
                ]);
                assert(dec_str(next as nat) + (seq![dec_digit(d as int)] + rev_digit_chars(
                    digits@,
                )) =~= (dec_str(next as nat) + seq![dec_digit(d as int)]) + rev_digit_chars(
                    digits@,
                ));
                assert(dec_str(n as nat) =~= dec_str(next as nat) + rev_digit_chars(ds));
            } else {
                assert(dec_str(rest as nat) =~= seq![dec_digit(d as int)]);
                assert(dec_str(n as nat) =~= rev_digit_chars(ds));
            }
        }
        digits.push(d);
        rest = next;
    }
    let mut s = String::new();
    let count: usize = digits.len();
    let mut j: usize = 0;
    while j < count
        invariant
            count == digits@.len(),
            0 <= j <= count,
            forall|i: int| 0 <= i < digits@.len() ==> digits@[i] < 10,
            s@ =~= rev_digit_chars(digits@).take(j as int),
        decreases count - j,
    {
        let d: u64 = digits[count - 1 - j];
        s.append(digit_str(d));
        proof {
            assert(s@ =~= rev_digit_chars(digits@).take(j as int + 1));
        }
        j = j + 1;
    }
    proof {
        assert(rev_digit_chars(digits@).take(count as int) =~= rev_digit_chars(digits@));
    }
    s
}

/// Renders a signed number in decimal, with a leading minus sign when it is
/// negative.
pub fn i64_to_decimal(v: i64) -> (s: String)
    ensures
        s@ == int_dec_str(v as int),
{
    if v >= 0 {
        u64_to_decimal(v as u64)
    } else {
        let magnitude: u64 = if v == i64::MIN {
            9223372036854775808u64
        } else {
            (-v) as u64
        };
        proof {
            reveal_strlit("-");
        }
        let mut s = String::from_str("-");
        proof {
            assert(s@ =~= seq!['-']);
        }
        s.append(u64_to_decimal(magnitude).as_str());
        s
    }
}

/// Options for declaring a queue.
#[derive(Debug, Clone, Copy, PartialEq, Eq, Structural)]
pub struct DeclareOptions {
    /// Do not create the queue; only check that it exists.
    pub passive: bool,
    /// The queue survives broker restarts.
    pub durable: bool,
    /// The queue is restricted to this connection.
    pub exclusive: bool,
    /// The queue is deleted when its last consumer disconnects.
    pub auto_delete: bool,
    /// Do not wait for the broker's confirmation of the declaration.
    pub nowait: bool,
}

impl Default for DeclareOptions {
    /// All options are off by default.
    fn default() -> (r: Self)
        ensures
            r == (DeclareOptions {
                passive: false,
                durable: false,
                exclusive: false,
                auto_delete: false,
                nowait: false,
            }),
    {
        DeclareOptions { passive: false, durable: false, exclusive: false, auto_delete: false, nowait: false }
    }
}

/// Looks a key up among header entries: the value of the first entry whose
/// key matches, or `None`.
pub open spec fn lookup_entries(s: Seq<(String, HeaderValue)>, k: Seq<char>) -> Option<HeaderValue>
    decreases s.len(),
{
    if s.len() == 0 {
        None
    } else if s[0].0@ == k {
        Some(s[0].1)
    } else {
        lookup_entries(s.drop_first(), k)
    }
}

/// How an entry list `n` arises from an entry list `o` by storing `value`
/// under `key`: the entry that already carried the key is replaced, or, when
/// none did, a new entry is appended.
pub open spec fn inserted(
    o: Seq<(String, HeaderValue)>,
    n: Seq<(String, HeaderValue)>,
    key: Seq<char>,
    value: HeaderValue,
) -> bool {
    if exists|i: int| 0 <= i < o.len() && o[i].0@ == key {
        exists|i: int|
            {
                &&& 0 <= i < o.len() && o[i].0@ == key
                &&& n.len() == o.len()
                &&& n[i].0@ == key && n[i].1 == value
                &&& forall|j: int| 0 <= j < o.len() && j != i ==> n[j] == o[j]
            }
    } else {
        &&& n.len() == o.len() + 1
        &&& n[o.len() as int].0@ == key && n[o.len() as int].1 == value
        &&& forall|j: int| 0 <= j < o.len() ==> n[j] == o[j]
    }
}

/// A table of AMQP arguments (a field table): an association list whose keys
/// are unique, so a lookup finds at most one entry.
#[derive(Debug, PartialEq, Eq)]
pub struct Arguments(pub Vec<(String, HeaderValue)>);

impl Arguments {
    /// Keys are pairwise distinct.
    pub open spec fn wf(self) -> bool {
        forall|i: int, j: int|
            0 <= i < j < self.0@.len() ==> self.0@[i].0@ != self.0@[j].0@
    }

    /// The value stored under a key, if any.
    pub open spec fn spec_get(self, k: Seq<char>) -> Option<HeaderValue> {
        lookup_entries(self.0@, k)
    }

    /// An empty table.
    pub fn new() -> (r: Self)
        ensures
            r.0@ =~= Seq::<(String, HeaderValue)>::empty(),
            r.wf(),
    {
        Arguments(Vec::new())
    }

    /// Returns a table with the same entries.
    pub fn duplicate(&self) -> (r: Self)
        ensures
            r.0@ == self.0@,
    {
        let n: usize = self.0.len();
        let mut out: Vec<(String, HeaderValue)> = Vec::new();
        let mut i: usize = 0;
        while i < n
            invariant
                n == self.0@.len(),
                0 <= i <= n,
                out@ =~= self.0@.take(i as int),
            decreases n - i,
        {
            let entry = &self.0[i];
            out.push((clone_string(&entry.0), entry.1.duplicate()));
            proof {
                assert(out@ =~= self.0@.take(i as int + 1));
            }
            i = i + 1;
        }
        proof {
            assert(self.0@.take(n as int) =~= self.0@);
        }
        Arguments(out)
    }

    /// Returns the value stored under `key`, if any.
    pub fn get(&self, key: &String) -> (r: Option<&HeaderValue>)
        ensures
            match r {
                Some(v) => self.spec_get(key@) == Some(*v),
                None => self.spec_get(key@) is None,
            },
    {
        let n: usize = self.0.len();
        let mut i: usize = 0;
        while i < n
            invariant
                n == self.0@.len(),
                0 <= i <= n,
                forall|j: int| 0 <= j < i ==> self.0@[j].0@ != key@,
            decreases n - i,
        {
            if self.0[i].0 == *key {
                proof {
                    lemma_lookup_prefix_miss(self.0@, key@, i as int);
                }
                return Some(&self.0[i].1);
            }
            i = i + 1;
        }
        proof {
            lemma_lookup_prefix_miss(self.0@, key@, n as int);
        }
        None
    }

    /// Inserts `value` under `key`, replacing the value of an existing entry
    /// with that key, or appending a new entry.
    pub fn insert(&mut self, key: String, value: HeaderValue)
        requires
            old(self).wf(),
        ensures
            final(self).wf(),
            inserted(old(self).0@, final(self).0@, key@, value),
    {
        let n: usize = self.0.len();
        let mut i: usize = 0;
        while i < n
            invariant
                self == old(self),
                old(self).wf(),
                n == self.0@.len(),
                0 <= i <= n,
                forall|j: int| 0 <= j < i ==> self.0@[j].0@ != key@,
            decreases n - i,
        {
            if self.0[i].0 == key {
                proof {
                    assert(old(self).0@[i as int].0@ == key@);
                }
                let slot = vstd::std_specs::vec::vec_index_mut(&mut self.0, i);
                *slot = (key, value);
                proof {
                    let g = old(self).0@.update(i as int, (key, value));
                    assert(self.0@ =~= g);
                    assert forall|a: int, b: int|
                        0 <= a < b < g.len() implies g[a].0@ != g[b].0@ by {
                        assert(g[a].0@ == old(self).0@[a].0@);
                        assert(g[b].0@ == old(self).0@[b].0@);
                    }
                }
                return;
            }
            i = i + 1;
        }
        self.0.push((key, value));
        proof {
            let g = old(self).0@.push((key, value));
            assert(self.0@ =~= g);
            assert forall|a: int, b: int|
                0 <= a < b < g.len() implies g[a].0@ != g[b].0@ by {
                if b == g.len() - 1 {
                    assert(g[b] == (key, value));
                    assert(g[a].0@ == old(self).0@[a].0@);
                    assert(old(self).0@[a].0@ != key@);
                } else {
                    assert(g[a].0@ == old(self).0@[a].0@);
                    assert(g[b].0@ == old(self).0@[b].0@);
                }
            }
        }
    }
}

/// If none of the first `n` entries carries the key, the lookup over the
/// whole list equals the lookup over the rest.
proof fn lemma_lookup_prefix_miss(s: Seq<(String, HeaderValue)>, k: Seq<char>, n: int)
    requires
        0 <= n <= s.len(),
        forall|j: int| 0 <= j < n ==> s[j].0@ != k,
    ensures
        lookup_entries(s, k) == lookup_entries(s.skip(n), k),
    decreases n,
{
    if n > 0 {
        lemma_lookup_prefix_miss(s, k, n - 1);
        assert(s.skip(n - 1)[0] == s[n - 1]);
        assert(s.skip(n - 1).drop_first() =~= s.skip(n));
    } else {
        assert(s.skip(0) =~= s);
    }
}

} // verus!
