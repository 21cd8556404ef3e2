//! The value types of the protocol: `Gender`, `Location` and `Person`,
//! together with their human-readable rendering.

use crate::text::chars_to_string;
use crate::text::lossy_decode;
use crate::text::nul_prefix;
use vstd::prelude::*;
use vstd::string::StringExecFns;

verus! {

/// The gender of a person. On the wire it is a single unsigned byte:
/// 0 means `Female`, 1 means `Male`, and every other value falls back to
/// `Unknown` rather than failing.
#[derive(Clone, Copy, Debug, PartialEq, Eq, Structural)]
pub enum Gender {
    Female,
    Male,
    Unknown,
}

/// The gender that a wire byte denotes: 0 is `Female`, 1 is `Male`, and any
/// other value maps to the `Unknown` fallback.
pub open spec fn gender_of_byte(b: u8) -> Gender {
    if b == 0 {
        Gender::Female
    } else if b == 1 {
        Gender::Male
    } else {
        Gender::Unknown
    }
}

impl Gender {
    /// Maps a wire byte to a gender; unrecognized values (2 and above) map to
    /// `Unknown`, never to `Female` or `Male` and never to a failure.
    pub fn from_byte(b: u8) -> (g: Gender)
        ensures
            g == gender_of_byte(b),
    {
        match b {
            0 => Gender::Female,
            1 => Gender::Male,
            _ => Gender::Unknown,
        }
    }

    /// The name of the gender, as it appears in a person's rendered info.
    pub open spec fn label_view(self) -> Seq<char> {
        match self {
            Gender::Female => "Female"@,
            Gender::Male => "Male"@,
            Gender::Unknown => "Unknown"@,
        }
    }

    /// The name of the gender as a string slice.
    pub fn label(&self) -> (s: &'static str)
        ensures
            s@ == self.label_view(),
    {
        match self {
            Gender::Female => "Female",
            Gender::Male => "Male",
            Gender::Unknown => "Unknown",
        }
    }
}

/// A postal location: four owned, independently allocated text fields.
pub struct Location {
    pub street_address: String,
    pub city: String,
    pub state: String,
    pub country: String,
}

impl Location {
    /// Builds a location from four nul-terminated byte buffers, copying each
    /// payload into owned storage with lossy UTF-8 decoding.
    pub fn create_loction(
        street_address: &Vec<u8>,
        city: &Vec<u8>,
        state: &Vec<u8>,
        country: &Vec<u8>,
    ) -> (l: Location)
        ensures
            l.street_address@ == lossy_decode(nul_prefix(street_address@)),
            l.city@ == lossy_decode(nul_prefix(city@)),
            l.state@ == lossy_decode(nul_prefix(state@)),
            l.country@ == lossy_decode(nul_prefix(country@)),
    {
        Location {
            street_address: crate::text::decode_text(street_address),
            city: crate::text::decode_text(city),
            state: crate::text::decode_text(state),
            country: crate::text::decode_text(country),
        }
    }
}

/// A person record: two name fields, a gender, an age byte and an embedded
/// location owned by value.
pub struct Person {
    pub first_name: String,
    pub last_name: String,
    pub gender: Gender,
    pub age: u8,
    pub location: Location,
}

/// The decimal digit character for a value between 0 and 9.
pub open spec fn dec_digit(d: int) -> char
    recommends
        0 <= d <= 9,
{
    ((48 + d) as u32) as char
}

/// The decimal rendering of a non-negative number, most significant digit
/// first and without leading zeros.
pub open spec fn dec_digits(n: int) -> Seq<char>
    recommends
        n >= 0,
    decreases n,
{
    if n < 10 {
        seq![dec_digit(n)]
    } else {
        dec_digits(n / 10).push(dec_digit(n % 10))
    }
}

/// The character for a single decimal digit.
fn digit_char(d: u8) -> (c: char)
    requires
        d <= 9,
    ensures
        c == dec_digit(d as int),
{
    char::from_u32(48 + d as u32).unwrap()
}

/// Renders a byte as its decimal digits, without leading zeros.
pub fn dec_string(n: u8) -> (s: String)
    ensures
        s@ == dec_digits(n as int),
{
    let mut chars: Vec<char> = Vec::new();
    if n >= 100 {
        chars.push(digit_char(n / 100));
    }
    if n >= 10 {
        chars.push(digit_char((n / 10) % 10));
    }
    chars.push(digit_char(n % 10));
    proof {
        if n < 10 {
            assert(chars@ =~= dec_digits(n as int));
        } else if n < 100 {
            assert((n / 10) % 10 == n as int / 10);
            assert(dec_digits(n as int / 10) =~= seq![dec_digit(n as int / 10)]);
            assert(chars@ =~= dec_digits(n as int));
        } else {
            assert((n as int / 10) / 10 == n as int / 100) by (nonlinear_arith);
            assert(n as int / 100 < 10);
            assert(dec_digits(n as int / 10) == dec_digits(n as int / 100).push(
                dec_digit((n as int / 10) % 10),
            ));
            assert(chars@ =~= dec_digits(n as int));
        }
    }
    chars_to_string(&chars)
}

impl Person {
    /// The multi-line rendering of the person: every field listed by label.
    pub open spec fn info_view(self) -> Seq<char> {
        "First name: "@ + self.first_name@ + "\nLast name: "@ + self.last_name@ + "\nGender: "@
            + self.gender.label_view() + "\nAge: "@ + dec_digits(self.age as int)
            + "\nStreet address: "@ + self.location.street_address@ + "\nCity: "@
            + self.location.city@ + "\nState: "@ + self.location.state@ + "\nCountry: "@
            + self.location.country@ + "\n"@
    }

    /// Renders the person as a new, separately owned string listing every
    /// field by label.
    pub fn get_info(&self) -> (s: String)
        ensures
            s@ == self.info_view(),
    {
        let age = dec_string(self.age);
        let mut s = String::new();
        s.append("First name: ");
        s.append(self.first_name.as_str());
        s.append("\nLast name: ");
        s.append(self.last_name.as_str());
        s.append("\nGender: ");
        s.append(self.gender.label());
        s.append("\nAge: ");
        s.append(age.as_str());
        s.append("\nStreet address: ");
        s.append(self.location.street_address.as_str());
        s.append("\nCity: ");
        s.append(self.location.city.as_str());
        s.append("\nState: ");
        s.append(self.location.state.as_str());
        s.append("\nCountry: ");
        s.append(self.location.country.as_str());
        s.append("\n");
        s
    }
}

/// True when `needle` occurs contiguously somewhere in `hay`.
pub open spec fn contains_seq(hay: Seq<char>, needle: Seq<char>) -> bool {
    exists|k: int|
        0 <= k && k + needle.len() <= hay.len() && #[trigger] hay.subrange(k, k + needle.len())
            == needle
}

/// The middle part of a three-way concatenation occurs in the whole.
pub proof fn lemma_concat_contains(a: Seq<char>, b: Seq<char>, c: Seq<char>)
    ensures
        contains_seq(a + b + c, b),
{
    let hay = a + b + c;
    let k = a.len() as int;
    assert(hay.subrange(k, k + b.len()) =~= b);
}

/// A person's rendered info contains every field value verbatim: both names,
/// the gender label, the decimal age and all four location fields.
#[verifier::rlimit(100)]
pub proof fn lemma_info_contains_fields(p: Person)
    ensures
        contains_seq(p.info_view(), p.first_name@),
        contains_seq(p.info_view(), p.last_name@),
        contains_seq(p.info_view(), p.gender.label_view()),
        contains_seq(p.info_view(), dec_digits(p.age as int)),
        contains_seq(p.info_view(), p.location.street_address@),
        contains_seq(p.info_view(), p.location.city@),
        contains_seq(p.info_view(), p.location.state@),
        contains_seq(p.info_view(), p.location.country@),
{
    let info = p.info_view();
    let l0 = "First name: "@;
    let l1 = "\nLast name: "@;
    let l2 = "\nGender: "@;
    let l3 = "\nAge: "@;
    let l4 = "\nStreet address: "@;
    let l5 = "\nCity: "@;
    let l6 = "\nState: "@;
    let l7 = "\nCountry: "@;
    let l8 = "\n"@;
    let f0 = p.first_name@;
    let f1 = p.last_name@;
    let f2 = p.gender.label_view();
    let f3 = dec_digits(p.age as int);
    let f4 = p.location.street_address@;
    let f5 = p.location.city@;
    let f6 = p.location.state@;
    let f7 = p.location.country@;
    assert(info =~= l0 + f0 + (l1 + f1 + l2 + f2 + l3 + f3 + l4 + f4 + l5 + f5 + l6 + f6 + l7 + f7
        + l8));
    lemma_concat_contains(l0, f0, l1 + f1 + l2 + f2 + l3 + f3 + l4 + f4 + l5 + f5 + l6 + f6 + l7
        + f7 + l8);
    assert(info =~= (l0 + f0 + l1) + f1 + (l2 + f2 + l3 + f3 + l4 + f4 + l5 + f5 + l6 + f6 + l7 + f7
        + l8));
    lemma_concat_contains(l0 + f0 + l1, f1, l2 + f2 + l3 + f3 + l4 + f4 + l5 + f5 + l6 + f6 + l7
        + f7 + l8);
    assert(info =~= (l0 + f0 + l1 + f1 + l2) + f2 + (l3 + f3 + l4 + f4 + l5 + f5 + l6 + f6 + l7 + f7
        + l8));
    lemma_concat_contains(l0 + f0 + l1 + f1 + l2, f2, l3 + f3 + l4 + f4 + l5 + f5 + l6 + f6 + l7
        + f7 + l8);
    assert(info =~= (l0 + f0 + l1 + f1 + l2 + f2 + l3) + f3 + (l4 + f4 + l5 + f5 + l6 + f6 + l7 + f7
        + l8));
    lemma_concat_contains(l0 + f0 + l1 + f1 + l2 + f2 + l3, f3, l4 + f4 + l5 + f5 + l6 + f6 + l7
        + f7 + l8);
    assert(info =~= (l0 + f0 + l1 + f1 + l2 + f2 + l3 + f3 + l4) + f4 + (l5 + f5 + l6 + f6 + l7 + f7
        + l8));
    lemma_concat_contains(l0 + f0 + l1 + f1 + l2 + f2 + l3 + f3 + l4, f4, l5 + f5 + l6 + f6 + l7
        + f7 + l8);
    assert(info =~= (l0 + f0 + l1 + f1 + l2 + f2 + l3 + f3 + l4 + f4 + l5) + f5 + (l6 + f6 + l7 + f7
        + l8));
    lemma_concat_contains(l0 + f0 + l1 + f1 + l2 + f2 + l3 + f3 + l4 + f4 + l5, f5, l6 + f6 + l7
        + f7 + l8);
    assert(info =~= (l0 + f0 + l1 + f1 + l2 + f2 + l3 + f3 + l4 + f4 + l5 + f5 + l6) + f6 + (l7 + f7
        + l8));
    lemma_concat_contains(l0 + f0 + l1 + f1 + l2 + f2 + l3 + f3 + l4 + f4 + l5 + f5 + l6, f6, l7
        + f7 + l8);
    assert(info =~= (l0 + f0 + l1 + f1 + l2 + f2 + l3 + f3 + l4 + f4 + l5 + f5 + l6 + f6 + l7) + f7
        + l8);
    lemma_concat_contains(l0 + f0 + l1 + f1 + l2 + f2 + l3 + f3 + l4 + f4 + l5 + f5 + l6 + f6 + l7,
        f7, l8);
}

} // verus!
