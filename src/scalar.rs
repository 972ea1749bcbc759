use vstd::prelude::*;

use crate::paths::{parse_usize, usize_text};

verus! {

/// Ten to the power `n`.
pub open spec fn pow10(n: nat) -> nat
    decreases n,
{
    if n == 0 {
        1
    } else {
        10 * pow10((n - 1) as nat)
    }
}

/// The character of a decimal digit.
pub open spec fn digit_char(d: nat) -> char {
    if d == 0 {
        '0'
    } else if d == 1 {
        '1'
    } else if d == 2 {
        '2'
    } else if d == 3 {
        '3'
    } else if d == 4 {
        '4'
    } else if d == 5 {
        '5'
    } else if d == 6 {
        '6'
    } else if d == 7 {
        '7'
    } else if d == 8 {
        '8'
    } else {
        '9'
    }
}

/// Decimal digits of `n`, most significant first, without leading zeros.
pub open spec fn digits_of(n: nat) -> Seq<char>
    decreases n,
{
    if n < 10 {
        seq![digit_char(n)]
    } else {
        digits_of(n / 10).push(digit_char(n % 10))
    }
}

/// `s` preceded by as many zeros as make it `width` characters long.
pub open spec fn zero_padded(s: Seq<char>, width: nat) -> Seq<char> {
    if s.len() < width {
        Seq::new((width - s.len()) as nat, |i: int| '0') + s
    } else {
        s
    }
}

/// Text of a literal quoted behind a one-letter prefix: `n"name"`.
pub open spec fn prefixed_quote(prefix: char, body: Seq<char>) -> Seq<char> {
    seq![prefix, '"'] + body + seq!['"']
}

/// Text of a plain quoted string literal: `"text"`.
pub open spec fn quoted(body: Seq<char>) -> Seq<char> {
    seq!['"'] + body + seq!['"']
}

/// Relies on `String::push`: the character is appended at the end.
#[verifier::external_body]
pub(crate) fn push_char(s: &mut String, c: char)
    ensures
        final(s)@ == old(s)@.push(c),
{
    s.push(c)
}

fn digit_to_char(d: u64) -> (c: char)
    requires
        d < 10,
    ensures
        c == digit_char(d as nat),
{
    match d {
        0 => '0',
        1 => '1',
        2 => '2',
        3 => '3',
        4 => '4',
        5 => '5',
        6 => '6',
        7 => '7',
        8 => '8',
        _ => '9',
    }
}

/// Appends the decimal digits of `n`.
pub fn write_digits(out: &mut String, n: u64)
    ensures
        final(out)@ == old(out)@ + digits_of(n as nat),
    decreases n,
{
    if n >= 10 {
        write_digits(out, n / 10);
    }
    push_char(out, digit_to_char(n % 10));
    assert(final(out)@ =~= old(out)@ + digits_of(n as nat));
}

/// Appends `body` between double quotes, behind `prefix` when one is given.
fn quote_with(prefix: Option<char>, body: &str) -> (r: String)
    ensures
        prefix matches Some(p) ==> r@ == prefixed_quote(p, body@),
        prefix is None ==> r@ == quoted(body@),
{
    let mut out = String::new();
    if let Some(p) = prefix {
        push_char(&mut out, p);
    }
    push_char(&mut out, '"');
    out.append(body);
    push_char(&mut out, '"');
    proof {
        if prefix is Some {
            assert(out@ =~= prefixed_quote(prefix->0, body@));
        } else {
            assert(out@ =~= quoted(body@));
        }
    }
    out
}

/// The texts of a list of strings.
pub open spec fn lines_view(v: Seq<String>) -> Seq<Seq<char>> {
    v.map_values(|s: String| s@)
}

/// The items one after the other, with `sep` between two neighbours.
pub open spec fn join_with(items: Seq<Seq<char>>, sep: Seq<char>) -> Seq<char>
    decreases items.len(),
{
    if items.len() == 0 {
        Seq::empty()
    } else if items.len() == 1 {
        items[0]
    } else {
        join_with(items.drop_last(), sep) + sep + items.last()
    }
}

/// The strings one after the other, with `sep` between two neighbours.
pub fn join_strings(items: &Vec<String>, sep: &str) -> (r: String)
    ensures
        r@ == join_with(lines_view(items@), sep@),
{
    let mut out = String::new();
    let mut i: usize = 0;
    while i < items.len()
        invariant
            i <= items@.len(),
            out@ == join_with(lines_view(items@).take(i as int), sep@),
        decreases items@.len() - i,
    {
        let ghost before = out@;
        if i > 0 {
            out.append(sep);
        }
        out.append(items[i].as_str());
        proof {
            let t = lines_view(items@).take(i as int + 1);
            assert(t.drop_last() =~= lines_view(items@).take(i as int));
            if i == 0 {
                assert(before =~= Seq::<char>::empty());
                assert(out@ =~= t[0]);
            } else {
                assert(out@ =~= join_with(t.drop_last(), sep@) + sep@ + t.last());
            }
        }
        i = i + 1;
    }
    assert(lines_view(items@).take(items@.len() as int) =~= lines_view(items@));
    out
}

/// Text of a structure literal: `new Type(arg, arg)`.
pub open spec fn struct_text(ty: Seq<char>, args: Seq<Seq<char>>) -> Seq<char> {
    seq!['n', 'e', 'w', ' '] + ty + seq!['('] + join_with(args, seq![',', ' ']) + seq![')']
}

/// Text of a list literal: `[item, item]`.
pub open spec fn list_text(items: Seq<Seq<char>>) -> Seq<char> {
    seq!['['] + join_with(items, seq![',', ' ']) + seq![']']
}

/// Text of an enumerated value: `Type.Variant`.
pub open spec fn enum_text(ty: Seq<char>, variant: Seq<char>) -> Seq<char> {
    ty + seq!['.'] + variant
}

fn comma() -> (r: String)
    ensures
        r@ == seq![',', ' '],
{
    let mut r = String::new();
    push_char(&mut r, ',');
    push_char(&mut r, ' ');
    assert(r@ =~= seq![',', ' ']);
    r
}

/// Text of a structure literal with the given argument texts.
pub fn struct_value(ty: &str, args: &Vec<String>) -> (r: String)
    ensures
        r@ == struct_text(ty@, lines_view(args@)),
{
    let mut out = String::new();
    push_char(&mut out, 'n');
    push_char(&mut out, 'e');
    push_char(&mut out, 'w');
    push_char(&mut out, ' ');
    out.append(ty);
    push_char(&mut out, '(');
    let sep = comma();
    let inner = join_strings(args, sep.as_str());
    out.append(inner.as_str());
    push_char(&mut out, ')');
    assert(out@ =~= struct_text(ty@, lines_view(args@)));
    out
}

/// Text of a list literal with the given item texts.
pub fn list_value(items: &Vec<String>) -> (r: String)
    ensures
        r@ == list_text(lines_view(items@)),
{
    let mut out = String::new();
    push_char(&mut out, '[');
    let sep = comma();
    let inner = join_strings(items, sep.as_str());
    out.append(inner.as_str());
    push_char(&mut out, ']');
    assert(out@ =~= list_text(lines_view(items@)));
    out
}

/// Text of an enumerated value.
pub fn enum_value(ty: &str, variant: &str) -> (r: String)
    ensures
        r@ == enum_text(ty@, variant@),
{
    let mut out = String::from_str(ty);
    push_char(&mut out, '.');
    out.append(variant);
    assert(out@ =~= enum_text(ty@, variant@));
    out
}

/// Text of a value as a literal of the target script.
pub trait RedsValue {
    spec fn reds_text(&self) -> Seq<char>;

    fn reds_value(&self) -> (r: String)
        ensures
            r@ == self.reds_text(),
    ;
}

/// Whether a value equals the zero value of its type.
pub trait IsDefault {
    spec fn spec_is_default(&self) -> bool;

    fn is_default(&self) -> (r: bool)
        ensures
            r == self.spec_is_default(),
    ;
}

/// The digits after the point end in no zero: a number is written with as
/// few fractional digits as it needs, none for a whole number.
pub open spec fn is_normal(units: int, scale: nat) -> bool {
    scale == 0 || (if units < 0 { -units } else { units }) % 10 != 0
}

/// A decimal number: `units` divided by ten to the power `scale`.
///
/// The numbers of the documents are written in decimal; this type holds them
/// exactly as written, and orders and compares them by value.
#[derive(Debug, Clone, Copy, PartialEq, Eq)]
pub struct Decimal {
    units: i64,
    scale: u8,
}

/// The largest number of fractional digits a [`Decimal`] holds.
pub const MAX_SCALE: u8 = 18;

impl Decimal {
    #[verifier::type_invariant]
    spec fn inv(self) -> bool {
        self.scale <= MAX_SCALE && is_normal(self.units as int, self.scale as nat)
    }

    pub closed spec fn spec_units(self) -> int {
        self.units as int
    }

    pub closed spec fn spec_scale(self) -> nat {
        self.scale as nat
    }

    /// The number times ten to the eighteenth: an integer for every decimal.
    pub open spec fn scaled(self) -> int {
        self.spec_units() * pow10((MAX_SCALE - self.spec_scale()) as nat) as int
    }

    /// Written with as few fractional digits as the number needs.
    pub open spec fn spec_is_normal(self) -> bool {
        is_normal(self.spec_units(), self.spec_scale())
    }

    /// The number `units / 10^scale`, when `scale` is at most
    /// [`MAX_SCALE`], written without trailing fractional zeros.
    pub fn new(units: i64, scale: u8) -> (r: Option<Decimal>)
        ensures
            r is Some <==> scale <= MAX_SCALE,
            r matches Some(d) ==> d.scaled() == units as int * pow10((MAX_SCALE - scale) as nat)
                && d.spec_is_normal() && d.spec_scale() <= scale,
    {
        if scale <= MAX_SCALE {
            Some(Decimal::normalized(units, scale))
        } else {
            None
        }
    }

    /// The number `units / 10^scale` with the trailing fractional zeros
    /// dropped.
    fn normalized(units: i64, scale: u8) -> (r: Decimal)
        requires
            scale <= MAX_SCALE,
        ensures
            r.scaled() == units as int * pow10((MAX_SCALE - scale) as nat),
            r.spec_is_normal(),
            r.spec_scale() <= scale,
    {
        let neg = units < 0;
        let mut mag: u64 = if neg {
            (0i128 - units as i128) as u64
        } else {
            units as u64
        };
        let ghost m0: int = mag as int;
        let mut s: u8 = scale;
        while s > 0 && mag % 10 == 0
            invariant
                s <= scale <= MAX_SCALE,
                m0 == (if units < 0 { -(units as int) } else { units as int }),
                mag <= m0,
                mag as int * pow10((MAX_SCALE - s) as nat) == m0 * pow10((MAX_SCALE - scale) as nat),
            decreases s,
        {
            proof {
                let q = mag as int / 10;
                let p = pow10((MAX_SCALE - s) as nat) as int;
                assert(pow10((MAX_SCALE - (s - 1)) as nat) == 10 * pow10((MAX_SCALE - s) as nat));
                assert(mag as int == 10 * q);
                assert(q * (10 * p) == (10 * q) * p) by (nonlinear_arith);
            }
            mag = mag / 10;
            s = s - 1;
        }
        let u: i64 = if neg {
            (0i128 - mag as i128) as i64
        } else {
            mag as i64
        };
        proof {
            let p = pow10((MAX_SCALE - s) as nat) as int;
            let p0 = pow10((MAX_SCALE - scale) as nat) as int;
            if neg {
                assert((-(mag as int)) * p == -(mag as int * p)) by (nonlinear_arith);
                assert((units as int) * p0 == -(m0 * p0)) by (nonlinear_arith)
                    requires m0 == -(units as int);
            }
        }
        Decimal { units: u, scale: s }
    }

    /// The whole number `units`.
    pub fn whole(units: i64) -> (r: Decimal)
        ensures
            r.spec_units() == units,
            r.spec_scale() == 0,
    {
        Decimal { units, scale: 0 }
    }

    pub fn units(&self) -> (r: i64)
        ensures
            r == self.spec_units(),
    {
        self.units
    }

    pub fn scale(&self) -> (r: u8)
        ensures
            r == self.spec_scale(),
            r <= MAX_SCALE,
            self.spec_is_normal(),
    {
        proof {
            use_type_invariant(self);
        }
        self.scale
    }

    /// The number times ten to the eighteenth.
    pub fn scaled_value(&self) -> (r: i128)
        ensures
            r == self.scaled(),
    {
        proof {
            use_type_invariant(self);
        }
        let mut p: i128 = 1;
        let mut k: u8 = self.scale;
        proof {
            lemma_pow10_le(0, 18);
        }
        while k < MAX_SCALE
            invariant
                self.scale <= k <= MAX_SCALE,
                p == pow10((k - self.scale) as nat),
                p <= pow10((k - self.scale) as nat),
                1 <= p,
                pow10((k - self.scale) as nat) <= pow10(18),
            decreases MAX_SCALE - k,
        {
            proof {
                lemma_pow10_le(((k + 1) - self.scale) as nat, 18);
                assert(pow10(((k + 1) - self.scale) as nat) == 10 * pow10((k - self.scale) as nat));
                lemma_pow10_18();
            }
            p = p * 10;
            k = k + 1;
        }
        proof {
            lemma_pow10_18();
            let u = self.units as int;
            assert(-9223372036854775808 <= u <= 9223372036854775807);
            assert(1 <= p <= 1000000000000000000);
            assert(-9223372036854775808000000000000000000 <= u * p <= 9223372036854775807000000000000000000)
                by (nonlinear_arith)
                requires
                    -9223372036854775808 <= u <= 9223372036854775807,
                    1 <= p <= 1000000000000000000,
            ;
        }
        self.units as i128 * p
    }

    /// Whether two decimals are the same number.
    pub fn same_value(&self, other: &Decimal) -> (r: bool)
        ensures
            r == (self.scaled() == other.scaled()),
    {
        self.scaled_value() == other.scaled_value()
    }

    /// Whether this decimal is a smaller number than `other`.
    pub fn less_than(&self, other: &Decimal) -> (r: bool)
        ensures
            r == (self.scaled() < other.scaled()),
    {
        self.scaled_value() < other.scaled_value()
    }
}

pub proof fn lemma_pow10_le(a: nat, b: nat)
    requires
        a <= b,
    ensures
        1 <= pow10(a) <= pow10(b),
    decreases b,
{
    if a < b {
        lemma_pow10_le(a, (b - 1) as nat);
    } else {
        lemma_pow10_pos(a);
    }
}

pub proof fn lemma_pow10_pos(a: nat)
    ensures
        1 <= pow10(a),
    decreases a,
{
    if a > 0 {
        lemma_pow10_pos((a - 1) as nat);
    }
}

pub proof fn lemma_pow10_18()
    ensures
        pow10(18) == 1000000000000000000,
{
    reveal_with_fuel(pow10, 19);
}

/// Literal text of a decimal: the digits with a point, and no fractional
/// digits after the point when there is no fractional part (`2.`, `0.6`).
pub open spec fn decimal_text(d: Decimal) -> Seq<char> {
    let u = d.spec_units();
    let mag = (if u < 0 { -u } else { u }) as nat;
    let p = pow10(d.spec_scale());
    let sign = if u < 0 { seq!['-'] } else { Seq::<char>::empty() };
    let frac = if d.spec_scale() == 0 {
        Seq::<char>::empty()
    } else {
        zero_padded(digits_of(mag % p), d.spec_scale())
    };
    sign + digits_of(mag / p) + seq!['.'] + frac
}

impl RedsValue for Decimal {
    open spec fn reds_text(&self) -> Seq<char> {
        decimal_text(*self)
    }

    fn reds_value(&self) -> (r: String) {
        let scale = self.scale();
        let units = self.units();
        let mut p: u64 = 1;
        let mut k: u8 = 0;
        proof {
            lemma_pow10_le(0, 18);
        }
        while k < scale
            invariant
                k <= scale <= MAX_SCALE,
                p == pow10(k as nat),
            decreases scale - k,
        {
            proof {
                lemma_pow10_le((k + 1) as nat, 18);
                lemma_pow10_18();
            }
            p = p * 10;
            k = k + 1;
        }
        proof {
            lemma_pow10_pos(scale as nat);
        }
        let mag: u64 = if units < 0 {
            (0i128 - units as i128) as u64
        } else {
            units as u64
        };
        let mut out = String::new();
        if units < 0 {
            push_char(&mut out, '-');
        }
        write_digits(&mut out, mag / p);
        push_char(&mut out, '.');
        if scale > 0 {
            let mut frac = String::new();
            write_digits(&mut frac, mag % p);
            let len = frac.as_str().unicode_len();
            let mut body = String::new();
            if len < scale as usize {
                let mut z: usize = 0;
                while z < scale as usize - len
                    invariant
                        len < scale,
                        z <= scale - len,
                        body@ == Seq::new(z as nat, |i: int| '0'),
                    decreases scale - len - z,
                {
                    push_char(&mut body, '0');
                    z = z + 1;
                    assert(body@ =~= Seq::new(z as nat, |i: int| '0'));
                }
            }
            body.append(frac.as_str());
            assert(body@ =~= zero_padded(digits_of((mag % p) as nat), scale as nat));
            out.append(body.as_str());
        }
        proof {
            let u = self.spec_units();
            let m = (if u < 0 { -u } else { u }) as nat;
            assert(m == mag as nat);
            assert(out@ =~= decimal_text(*self));
        }
        out
    }
}

impl IsDefault for Decimal {
    open spec fn spec_is_default(&self) -> bool {
        self.spec_units() == 0
    }

    fn is_default(&self) -> (r: bool) {
        self.units() == 0
    }
}

impl RedsValue for bool {
    open spec fn reds_text(&self) -> Seq<char> {
        if *self {
            seq!['t', 'r', 'u', 'e']
        } else {
            seq!['f', 'a', 'l', 's', 'e']
        }
    }

    fn reds_value(&self) -> (r: String) {
        let r = if *self {
            String::from_str("true")
        } else {
            String::from_str("false")
        };
        proof {
            reveal_strlit("true");
            reveal_strlit("false");
        }
        assert(r@ =~= self.reds_text());
        r
    }
}

impl IsDefault for bool {
    open spec fn spec_is_default(&self) -> bool {
        !*self
    }

    fn is_default(&self) -> (r: bool) {
        !*self
    }
}

impl RedsValue for String {
    open spec fn reds_text(&self) -> Seq<char> {
        quoted(self@)
    }

    fn reds_value(&self) -> (r: String) {
        quote_with(None, self.as_str())
    }
}

impl IsDefault for String {
    open spec fn spec_is_default(&self) -> bool {
        self@.len() == 0
    }

    fn is_default(&self) -> (r: bool) {
        self.as_str().unicode_len() == 0
    }
}

/// asset handle ID
#[derive(Debug, Clone, Copy, PartialEq, Eq)]
pub struct HandleId(pub u32);

impl RedsValue for HandleId {
    open spec fn reds_text(&self) -> Seq<char> {
        digits_of(self.0 as nat)
    }

    fn reds_value(&self) -> (r: String) {
        let mut out = String::new();
        write_digits(&mut out, self.0 as u64);
        assert(out@ =~= self.reds_text());
        out
    }
}

impl IsDefault for HandleId {
    open spec fn spec_is_default(&self) -> bool {
        self.0 == 0
    }

    fn is_default(&self) -> (r: bool) {
        self.0 == 0
    }
}

impl From<u32> for HandleId {
    fn from(value: u32) -> (r: HandleId)
        ensures
            r.0 == value,
    {
        HandleId(value)
    }
}

impl vstd::std_specs::convert::FromSpecImpl<u32> for HandleId {
    open spec fn obeys_from_spec() -> bool {
        true
    }

    open spec fn from_spec(v: u32) -> HandleId {
        HandleId(v)
    }
}

/// specific resource ID: a symbolic name, `None` when unset
#[derive(Debug, Clone, PartialEq)]
pub struct CName(pub String);

/// The text of the unset name.
pub open spec fn none_name() -> Seq<char> {
    seq!['N', 'o', 'n', 'e']
}

impl CName {
    /// The unset name.
    pub fn none() -> (r: CName)
        ensures
            r.0@ == none_name(),
    {
        proof {
            reveal_strlit("None");
        }
        let r = CName(String::from_str("None"));
        assert(r.0@ =~= none_name());
        r
    }

    pub fn as_str(&self) -> (r: &str)
        ensures
            r@ == self.0@,
    {
        self.0.as_str()
    }
}

impl RedsValue for CName {
    open spec fn reds_text(&self) -> Seq<char> {
        prefixed_quote('n', self.0@)
    }

    fn reds_value(&self) -> (r: String) {
        quote_with(Some('n'), self.0.as_str())
    }
}

impl IsDefault for CName {
    open spec fn spec_is_default(&self) -> bool {
        self.0@ == none_name()
    }

    fn is_default(&self) -> (r: bool) {
        let none = CName::none();
        let r = self.0 == none.0;
        r
    }
}

/// path of a resource in the game's depot
#[derive(Debug, Clone, PartialEq)]
pub struct ResourcePath(pub String);

impl RedsValue for ResourcePath {
    open spec fn reds_text(&self) -> Seq<char> {
        prefixed_quote('r', self.0@)
    }

    fn reds_value(&self) -> (r: String) {
        quote_with(Some('r'), self.0.as_str())
    }
}

impl IsDefault for ResourcePath {
    open spec fn spec_is_default(&self) -> bool {
        self.0@.len() == 0
    }

    fn is_default(&self) -> (r: bool) {
        self.0.as_str().unicode_len() == 0
    }
}

/// key of a translation: a numeric ID or a literal key
#[derive(Debug, Clone, PartialEq)]
pub enum LocKey {
    ID(u32),
    Value(String),
}

/// specific translation ID
#[derive(Debug, Clone, PartialEq)]
pub struct LocalizationString {
    pub value: Option<LocKey>,
}

/// The text of the script's null value.
pub open spec fn null_text() -> Seq<char> {
    seq!['n', 'u', 'l', 'l']
}

/// Keys that stand for no translation: ID zero, and the literal keys `null`
/// and `None`.
pub open spec fn is_null_key(k: LocKey) -> bool {
    match k {
        LocKey::ID(id) => id == 0,
        LocKey::Value(v) => v@ == null_text() || v@ == none_name(),
    }
}

impl RedsValue for LocalizationString {
    open spec fn reds_text(&self) -> Seq<char> {
        match self.value {
            None => null_text(),
            Some(k) => if is_null_key(k) {
                null_text()
            } else {
                match k {
                    LocKey::ID(id) => seq!['L', 'o', 'c', 'K', 'e', 'y', '#'] + digits_of(id as nat),
                    LocKey::Value(v) => prefixed_quote('l', v@),
                }
            },
        }
    }

    fn reds_value(&self) -> (r: String) {
        proof {
            reveal_strlit("null");
            reveal_strlit("None");
            reveal_strlit("LocKey#");
        }
        let null = String::from_str("null");
        assert(null@ =~= null_text());
        match &self.value {
            None => null,
            Some(LocKey::ID(id)) => {
                if *id == 0 {
                    null
                } else {
                    let mut out = String::from_str("LocKey#");
                    write_digits(&mut out, *id as u64);
                    assert(out@ =~= self.reds_text());
                    out
                }
            },
            Some(LocKey::Value(v)) => {
                let none = CName::none();
                if *v == null || *v == none.0 {
                    null
                } else {
                    quote_with(Some('l'), v.as_str())
                }
            },
        }
    }
}

/// Whether a translation holds no key: none at all, ID zero, or an empty
/// literal key.
pub open spec fn spec_no_translation(l: LocalizationString) -> bool {
    match l.value {
        None => true,
        Some(LocKey::ID(id)) => id == 0,
        Some(LocKey::Value(v)) => v@.len() == 0,
    }
}

/// Whether a translation holds no key: none at all, ID zero, or an empty
/// literal key.
pub fn is_any_default_localization_string(l: &LocalizationString) -> (r: bool)
    ensures
        r == spec_no_translation(*l),
{
    match &l.value {
        None => true,
        Some(LocKey::ID(id)) => *id == 0,
        Some(LocKey::Value(v)) => v.as_str().unicode_len() == 0,
    }
}

impl IsDefault for LocalizationString {
    open spec fn spec_is_default(&self) -> bool {
        self.value is None
    }

    fn is_default(&self) -> (r: bool) {
        self.value.is_none()
    }
}

impl Default for Decimal {
    /// Zero.
    fn default() -> (r: Self)
        ensures
            r.spec_units() == 0,
            r.spec_scale() == 0,
    {
        Decimal::whole(0)
    }
}

impl Default for HandleId {
    fn default() -> (r: Self)
        ensures
            r.0 == 0,
    {
        HandleId(0)
    }
}

impl Default for CName {
    /// The unset name, `None`.
    fn default() -> (r: Self)
        ensures
            r.spec_is_default(),
    {
        CName::none()
    }
}

impl Default for ResourcePath {
    fn default() -> (r: Self)
        ensures
            r.spec_is_default(),
    {
        ResourcePath(String::new())
    }
}

impl Default for LocalizationString {
    fn default() -> (r: Self)
        ensures
            r.spec_is_default(),
    {
        LocalizationString { value: None }
    }
}

/// Largest numeric translation ID: IDs have at most five digits.
pub const LOCKEY_ID_MAX: u64 = 99999;

/// A translation key that cannot be read.
#[derive(Debug, Clone, Copy, PartialEq, Eq)]
pub enum LocKeyError {
    /// A numeric ID with more than five digits.
    IdTooLarge,
    /// A `LocKey#` key whose five characters are not a number.
    BadId,
}

/// Prefix of a key written with its numeric ID: `LocKey#12345`.
pub open spec fn lockey_prefix() -> Seq<char> {
    seq!['L', 'o', 'c', 'K', 'e', 'y', '#']
}

/// A key written with its numeric ID: the prefix then five characters.
pub open spec fn is_id_form(v: Seq<char>) -> bool {
    v.len() == 12 && v.take(7) == lockey_prefix()
}

/// A translation key given as a number.
pub fn lockey_from_id(v: u64) -> (r: Result<LocKey, LocKeyError>)
    ensures
        v <= LOCKEY_ID_MAX ==> r == Ok::<LocKey, LocKeyError>(LocKey::ID(v as u32)),
        v > LOCKEY_ID_MAX ==> r == Err::<LocKey, LocKeyError>(LocKeyError::IdTooLarge),
{
    if v > LOCKEY_ID_MAX {
        Err(LocKeyError::IdTooLarge)
    } else {
        Ok(LocKey::ID(v as u32))
    }
}

fn has_lockey_prefix(v: &str) -> (r: bool)
    requires
        v@.len() == 12,
    ensures
        r == (v@.take(7) == lockey_prefix()),
{
    let p: [char; 7] = ['L', 'o', 'c', 'K', 'e', 'y', '#'];
    assert(p@ =~= lockey_prefix());
    let mut i: usize = 0;
    while i < 7
        invariant
            i <= 7,
            p@ == lockey_prefix(),
            v@.len() == 12,
            forall|j: int| 0 <= j < i ==> v@[j] == lockey_prefix()[j],
        decreases 7 - i,
    {
        if v.get_char(i) != p[i] {
            assert(v@.take(7)[i as int] != lockey_prefix()[i as int]);
            return false;
        }
        i = i + 1;
    }
    assert(v@.take(7) =~= lockey_prefix());
    true
}

/// A translation key given as text: `LocKey#` and five digits is a numeric
/// ID; any other text, the empty text included, is a literal key.
pub fn lockey_from_text(v: &str) -> (r: Result<LocKey, LocKeyError>)
    ensures
        !is_id_form(v@) ==> (r matches Ok(LocKey::Value(s)) && s@ == v@),
        is_id_form(v@) ==> match usize_text(v@.skip(7)) {
            Some(n) => if n <= u32::MAX {
                r == Ok::<LocKey, LocKeyError>(LocKey::ID(n as u32))
            } else {
                r == Err::<LocKey, LocKeyError>(LocKeyError::BadId)
            },
            None => r == Err::<LocKey, LocKeyError>(LocKeyError::BadId),
        },
{
    let n = v.unicode_len();
    if n == 12 && has_lockey_prefix(v) {
        let digits = v.substring_char(7, 12);
        assert(digits@ =~= v@.skip(7));
        match parse_usize(digits) {
            Some(id) => {
                if id <= u32::MAX as usize {
                    Ok(LocKey::ID(id as u32))
                } else {
                    Err(LocKeyError::BadId)
                }
            },
            None => Err(LocKeyError::BadId),
        }
    } else {
        Ok(LocKey::Value(String::from_str(v)))
    }
}

impl Decimal {
    /// The sum of two decimals; `None` when it does not fit with the larger
    /// of their scales.
    pub fn checked_add(&self, other: &Decimal) -> (r: Option<Decimal>)
        ensures
            r matches Some(d) ==> d.scaled() == self.scaled() + other.scaled(),
    {
        let (s1, s2) = (self.scale(), other.scale());
        let s = if s1 >= s2 { s1 } else { s2 };
        let a = match scale_up(self.units(), s - s1) {
            Some(a) => a,
            None => {
                return None;
            },
        };
        let b = match scale_up(other.units(), s - s2) {
            Some(b) => b,
            None => {
                return None;
            },
        };
        let sum = a as i128 + b as i128;
        if sum < i64::MIN as i128 || sum > i64::MAX as i128 {
            return None;
        }
        let d = Decimal::normalized(sum as i64, s);
        proof {
            lemma_pow10_add(
                (s - s1) as nat,
                (MAX_SCALE - s) as nat,
            );
            lemma_pow10_add(
                (s - s2) as nat,
                (MAX_SCALE - s) as nat,
            );
            let p = pow10((MAX_SCALE - s) as nat) as int;
            let p1 = pow10((s - s1) as nat) as int;
            let p2 = pow10((s - s2) as nat) as int;
            assert(a as int * p == self.units as int * p1 * p) by (nonlinear_arith)
                requires a as int == self.units as int * p1;
            assert(b as int * p == other.units as int * p2 * p) by (nonlinear_arith)
                requires b as int == other.units as int * p2;
            assert(self.units as int * p1 * p == self.units as int * (p1 * p)) by (nonlinear_arith);
            assert(other.units as int * p2 * p == other.units as int * (p2 * p)) by (nonlinear_arith);
            assert((a as int + b as int) * p == a as int * p + b as int * p) by (nonlinear_arith);
        }
        Some(d)
    }
}

/// `units * 10^k`, when it fits.
fn scale_up(units: i64, k: u8) -> (r: Option<i64>)
    ensures
        r matches Some(v) ==> v as int == units as int * pow10(k as nat) as int,
{
    let mut v: i64 = units;
    let mut i: u8 = 0;
    assert(pow10(0) == 1);
    while i < k
        invariant
            i <= k,
            v as int == units as int * pow10(i as nat) as int,
        decreases k - i,
    {
        if v > i64::MAX / 10 || v < i64::MIN / 10 {
            return None;
        }
        proof {
            assert(units as int * pow10((i + 1) as nat) as int == (units as int * pow10(i as nat) as int) * 10)
                by (nonlinear_arith)
                requires
                    pow10((i + 1) as nat) == 10 * pow10(i as nat),
            ;
        }
        v = v * 10;
        i = i + 1;
    }
    Some(v)
}

pub proof fn lemma_pow10_add(a: nat, b: nat)
    ensures
        pow10(a + b) == pow10(a) * pow10(b),
    decreases a,
{
    if a > 0 {
        lemma_pow10_add((a - 1) as nat, b);
        assert(pow10(a + b) == 10 * pow10((a - 1 + b) as nat));
        assert(10 * (pow10((a - 1) as nat) * pow10(b)) == (10 * pow10((a - 1) as nat)) * pow10(b))
            by (nonlinear_arith);
    } else {
        assert(pow10(0) == 1);
        assert(a + b == b);
    }
}

/// A number with no fractional part is written with no digits after the
/// point: `2.`, `-360.`, `0.`.
pub proof fn lemma_whole_number_text(d: Decimal)
    requires
        d.spec_is_normal(),
        d.spec_scale() <= MAX_SCALE,
        d.scaled() % (pow10(MAX_SCALE as nat) as int) == 0,
    ensures
        d.spec_scale() == 0,
        decimal_text(d) == (if d.spec_units() < 0 {
            seq!['-']
        } else {
            Seq::<char>::empty()
        }) + digits_of((if d.spec_units() < 0 { -d.spec_units() } else { d.spec_units() }) as nat)
            + seq!['.'],
{
    let s = d.spec_scale();
    let u = d.spec_units();
    if s > 0 {
        lemma_pow10_add(s, (MAX_SCALE - s) as nat);
        lemma_pow10_pos((MAX_SCALE - s) as nat);
        lemma_pow10_pos(MAX_SCALE as nat);
        let big = pow10(MAX_SCALE as nat) as int;
        let ps = pow10(s) as int;
        let q = pow10((MAX_SCALE - s) as nat) as int;
        let k = d.scaled() / big;
        assert(big == ps * q);
        assert(d.scaled() == u * q);
        assert(d.scaled() == k * big) by (nonlinear_arith)
            requires
                d.scaled() % big == 0,
                big > 0,
                k == d.scaled() / big,
        ;
        assert(u == k * ps) by (nonlinear_arith)
            requires
                u * q == k * (ps * q),
                q > 0,
        ;
        let m = k * pow10((s - 1) as nat) as int;
        assert(ps == 10 * pow10((s - 1) as nat));
        assert(u == 10 * m) by (nonlinear_arith)
            requires
                u == k * ps,
                ps == 10 * pow10((s - 1) as nat),
                m == k * pow10((s - 1) as nat),
        ;
        if u < 0 {
            assert((-u) % 10 == 0) by (nonlinear_arith)
                requires
                    -u == 10 * (-m),
            ;
        } else {
            assert(u % 10 == 0) by (nonlinear_arith)
                requires
                    u == 10 * m,
            ;
        }
        assert(false);
    }
    let mag = (if u < 0 { -u } else { u }) as nat;
    assert(pow10(0) == 1);
    assert(mag / 1 == mag);
    assert(decimal_text(d) =~= (if u < 0 {
        seq!['-']
    } else {
        Seq::<char>::empty()
    }) + digits_of(mag) + seq!['.']);
}

} // verus!
