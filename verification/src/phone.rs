//! The calls into the `phonenumber` crate that validate and normalise
//! phone numbers. A parsed number stays opaque; what the library reads of
//! it (whether it is valid, and its E.164 text) comes back as plain values
//! and is named by the region and the text it was parsed from.

use phonenumber::PhoneNumber as E164Number;
use std::str::FromStr;
use vstd::prelude::*;

use crate::text::is_digit;

verus! {

#[verifier::external_type_specification]
#[verifier::external_body]
pub struct ExE164Number(E164Number);

#[verifier::external_type_specification]
#[verifier::external_body]
pub struct ExOutsideCountryId(phonenumber::country::Id);

/// Whether `phonenumber::country::Id::from_str` knows the region code.
pub uninterp spec fn region_known(code: Seq<char>) -> bool;

/// Whether `phonenumber::parse` accepts `input` (with the default region
/// `region`, given by its ISO code).
pub uninterp spec fn number_parses(region: Option<Seq<char>>, input: Seq<char>) -> bool;

/// What `phonenumber::is_valid` answers for the number parsed from `input`.
pub uninterp spec fn number_is_valid(region: Option<Seq<char>>, input: Seq<char>) -> bool;

/// The E.164 text that the crate's formatter writes for the number parsed
/// from `input`.
pub uninterp spec fn number_e164(region: Option<Seq<char>>, input: Seq<char>) -> Seq<char>;

/// E.164 shape: a `+` followed by at least one ASCII digit and nothing else,
/// the first digit (that of the country code) not `0`.
pub open spec fn is_e164_text(s: Seq<char>) -> bool {
    &&& s.len() >= 2
    &&& s[0] == '+'
    &&& s[1] != '0'
    &&& forall|i: int| 1 <= i < s.len() ==> is_digit(#[trigger] s[i])
}

/// A region known to the crate's metadata, with the code it was looked up by.
pub struct Region {
    id: phonenumber::country::Id,
    code: Ghost<Seq<char>>,
}

impl Region {
    pub closed spec fn code(&self) -> Seq<char> {
        self.code@
    }
}

pub open spec fn region_code(region: Option<&Region>) -> Option<Seq<char>> {
    match region {
        Some(r) => Some(r.code()),
        None => None,
    }
}

/// A number accepted by `phonenumber::parse`, with what it was parsed from.
pub struct ParsedNumber {
    number: E164Number,
    region: Ghost<Option<Seq<char>>>,
    input: Ghost<Seq<char>>,
}

impl ParsedNumber {
    pub closed spec fn region(&self) -> Option<Seq<char>> {
        self.region@
    }

    pub closed spec fn input(&self) -> Seq<char> {
        self.input@
    }
}

/// `phonenumber::country::Id::from_str`: looks a region up by its ISO code.
#[verifier::external_body]
pub(crate) fn lookup_region(code: &str) -> (r: Option<Region>)
    ensures
        r is Some <==> region_known(code@),
        r matches Some(reg) ==> reg.code() == code@,
{
    match phonenumber::country::Id::from_str(code) {
        Ok(id) => Some(Region { id, code: Ghost(code@) }),
        Err(_) => None,
    }
}


/// `phonenumber::parse`: parses `input`, with `region` as the default
/// region for numbers written without a country code.
#[verifier::external_body]
pub(crate) fn parse_number(region: Option<&Region>, input: &str) -> (r: Option<ParsedNumber>)
    ensures
        r is Some <==> number_parses(region_code(region), input@),
        r matches Some(p) ==> p.region() == region_code(region) && p.input() == input@,
{
    match phonenumber::parse(region.map(|reg| reg.id), input) {
        Ok(number) => Some(ParsedNumber {
            number,
            region: Ghost(region_code(region)),
            input: Ghost(input@),
        }),
        Err(_) => None,
    }
}

/// `phonenumber::is_valid`: whether the parsed number is a valid number of
/// its region according to the crate's metadata.
#[verifier::external_body]
pub(crate) fn number_valid(p: &ParsedNumber) -> (b: bool)
    ensures
        b == number_is_valid(p.region(), p.input()),
{
    phonenumber::is_valid(&p.number)
}

/// `PhoneNumber::format` in `Mode::E164`, written out with `to_string`.
/// For a valid number the crate's formatter writes `+`, the country code and
/// the national number, all in decimal digits; the country code is one that
/// the metadata knows, never 0, and is written without leading zeros. On an invalid country code
/// the formatter reports an error and `to_string` panics; validity rules
/// that out.
#[verifier::external_body]
pub(crate) fn e164_text(p: &ParsedNumber) -> (s: String)
    requires
        number_is_valid(p.region(), p.input()),
    ensures
        s@ == number_e164(p.region(), p.input()),
        is_e164_text(s@),
{
    p.number.format().mode(phonenumber::Mode::E164).to_string()
}

} // verus!
