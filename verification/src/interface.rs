//! Reading a whole request.
//!
//! A request is a JSON object with the members `test`, `analysis` and
//! `tail`, the four quantities `n`, `alpha`, `power` and `es`, and the
//! structural parameters of its test. The quantity that `analysis` names is
//! the unknown: its member is not looked at. The other three have to be JSON
//! numbers. What is wrong with a request is reported before any number is
//! computed; the answer to a request goes back under the name of its
//! analysis.

use crate::fields::{
    agrees, integer_entry, integer_from, quantity_entry, quantity_fault, text_entry, text_from,
};
use crate::json::{document, entry, json, member, members, Entry};
use crate::power::{tail_of, test_kind_of, Tail, TestKind};
use crate::text::same_text;
use serde_json::Value;
use vstd::prelude::*;
use vstd::string::*;

verus! {

/// The quantity that a request asks for.
#[derive(Clone, Copy, Debug, PartialEq, Eq, Structural)]
pub enum Analysis {
    /// The sample size.
    N,
    /// The significance level.
    Alpha,
    /// The power.
    Power,
    /// The effect size.
    ES,
}

/// What a request says, once it is read: the test with its structural
/// parameters, the quantity asked for, and the tail.
#[derive(Clone, Copy, Debug, PartialEq, Eq, Structural)]
pub struct Received {
    pub test: TestKind,
    pub analysis: Analysis,
    pub tail: Tail,
}

/// The message for an analysis identifier that names no quantity.
pub open spec fn unknown_analysis(text: Seq<char>) -> Seq<char> {
    "Unknown analysis: "@ + text
}

/// The quantity that the identifier `text` names.
pub open spec fn analysis_of(text: Seq<char>) -> Result<Analysis, Seq<char>> {
    if text == "n"@ {
        Ok(Analysis::N)
    } else if text == "alpha"@ {
        Ok(Analysis::Alpha)
    } else if text == "power"@ {
        Ok(Analysis::Power)
    } else if text == "es"@ {
        Ok(Analysis::ES)
    } else {
        Err(unknown_analysis(text))
    }
}

/// What is wrong with the quantity `field` of a request with the members
/// `fields` that asks for `analysis`, if anything. Nothing is wrong with
/// the quantity that is asked for.
pub open spec fn input_fault(
    fields: Map<Seq<char>, Entry>,
    analysis: Analysis,
    field: Seq<char>,
) -> Option<Seq<char>> {
    if field == analysis.name_of() {
        None
    } else {
        quantity_fault(member(fields, field), field)
    }
}

/// The first thing wrong with the quantities of a request with the members
/// `fields` that asks for `analysis`, in the order `n`, `alpha`, `power`,
/// `es`.
pub open spec fn inputs_fault(fields: Map<Seq<char>, Entry>, analysis: Analysis) -> Option<
    Seq<char>,
> {
    if input_fault(fields, analysis, "n"@) is Some {
        input_fault(fields, analysis, "n"@)
    } else if input_fault(fields, analysis, "alpha"@) is Some {
        input_fault(fields, analysis, "alpha"@)
    } else if input_fault(fields, analysis, "power"@) is Some {
        input_fault(fields, analysis, "power"@)
    } else {
        input_fault(fields, analysis, "es"@)
    }
}

/// The tail of a request with the members `fields`. A request without the
/// member `tail` is one-sided. A `tail` that is there has to be the text of
/// an integer: `2` asks for two sides, every other integer for one.
pub open spec fn requested_tail(fields: Map<Seq<char>, Entry>) -> Result<Tail, Seq<char>> {
    match member(fields, "tail"@) {
        None => Ok(Tail::OneSided),
        Some(found) => match integer_from(Some(found), "tail"@) {
            Ok(sides) => if sides == 2 {
                Ok(Tail::TwoSided)
            } else {
                Ok(Tail::OneSided)
            },
            Err(message) => Err(message),
        },
    }
}

/// What a request with the members `fields` says, or the report of the
/// first thing wrong with it: the test and its parameters are read first,
/// then the analysis, then the three quantities that are given, then the
/// tail.
pub open spec fn received_of(fields: Map<Seq<char>, Entry>) -> Result<Received, Seq<char>> {
    match text_from(member(fields, "test"@), "test"@) {
        Err(message) => Err(message),
        Ok(test_name) => match test_kind_of(test_name, fields) {
            Err(message) => Err(message),
            Ok(test) => match text_from(member(fields, "analysis"@), "analysis"@) {
                Err(message) => Err(message),
                Ok(analysis_name) => match analysis_of(analysis_name) {
                    Err(message) => Err(message),
                    Ok(analysis) => match inputs_fault(fields, analysis) {
                        Some(message) => Err(message),
                        None => match requested_tail(fields) {
                            Err(message) => Err(message),
                            Ok(tail) => Ok(Received { test, analysis, tail }),
                        },
                    },
                },
            },
        },
    }
}

/// The message for text that is no JSON document.
pub open spec fn not_json() -> Seq<char> {
    "Failed to parse json"@
}

/// What the request that `text` spells says, or the report of the first
/// thing wrong with it. Text that is no JSON document is no request.
pub open spec fn request_of(text: Seq<char>) -> Result<Received, Seq<char>> {
    match document(text) {
        None => Err(not_json()),
        Some(fields) => received_of(fields),
    }
}

impl Analysis {
    /// The identifier of the quantity, under which a request asks for it
    /// and the answer gives it.
    pub open spec fn name_of(self) -> Seq<char> {
        match self {
            Analysis::N => "n"@,
            Analysis::Alpha => "alpha"@,
            Analysis::Power => "power"@,
            Analysis::ES => "es"@,
        }
    }

    /// Reads the quantity that the identifier `text` names.
    pub fn from_str(text: &str) -> (r: Result<Analysis, String>)
        ensures
            agrees(r, analysis_of(text@)),
    {
        if same_text(text, "n") {
            Ok(Analysis::N)
        } else if same_text(text, "alpha") {
            Ok(Analysis::Alpha)
        } else if same_text(text, "power") {
            Ok(Analysis::Power)
        } else if same_text(text, "es") {
            Ok(Analysis::ES)
        } else {
            Err(String::from_str("Unknown analysis: ").concat(text))
        }
    }

    /// The number of decimal places to which an answer is rounded: three
    /// for a probability or an effect size, none for a sample size, which
    /// is a whole number.
    pub fn decimals(self) -> (r: Option<u32>)
        ensures
            r == (if self == Analysis::N {
                None
            } else {
                Some(3u32)
            }),
    {
        match self {
            Analysis::N => None,
            _ => Some(3),
        }
    }

    /// The identifier of the quantity.
    pub fn name(self) -> (r: &'static str)
        ensures
            r@ == self.name_of(),
    {
        match self {
            Analysis::N => "n",
            Analysis::Alpha => "alpha",
            Analysis::Power => "power",
            Analysis::ES => "es",
        }
    }
}

/// An identifier names a quantity exactly if it is that quantity's name: the
/// answer to a request stands under the identifier that asked for it.
pub proof fn lemma_analysis_name(text: Seq<char>, analysis: Analysis)
    ensures
        analysis_of(text) == Ok::<Analysis, Seq<char>>(analysis) <==> text == analysis.name_of(),
{
    reveal_strlit("n");
    reveal_strlit("alpha");
    reveal_strlit("power");
    reveal_strlit("es");
    assert("n"@.len() == 1 && "alpha"@.len() == 5 && "power"@.len() == 5 && "es"@.len() == 2);
    assert("alpha"@[0] != "power"@[0]);
}

/// Different quantities have different names.
pub proof fn lemma_names_differ(a: Analysis, b: Analysis)
    ensures
        a.name_of() == b.name_of() <==> a == b,
{
    lemma_analysis_name(a.name_of(), a);
    lemma_analysis_name(a.name_of(), b);
}

/// A request that is accepted holds every quantity that it does not ask
/// for, as a number.
pub proof fn lemma_accepted_inputs_are_numbers(fields: Map<Seq<char>, Entry>, quantity: Analysis)
    requires
        received_of(fields) is Ok,
        quantity != received_of(fields)->Ok_0.analysis,
    ensures
        member(fields, quantity.name_of()) == Some(Entry::Number),
{
    let analysis = received_of(fields)->Ok_0.analysis;
    lemma_names_differ(quantity, analysis);
    assert(inputs_fault(fields, analysis) is None);
    assert(input_fault(fields, analysis, quantity.name_of()) is None);
}

/// A request that is accepted asks for its quantity by that quantity's
/// name: the answer, which stands under the name, stands under the
/// identifier that the request gave.
pub proof fn lemma_accepted_analysis_is_named(fields: Map<Seq<char>, Entry>)
    requires
        received_of(fields) is Ok,
    ensures
        text_from(member(fields, "analysis"@), "analysis"@) == Ok::<Seq<char>, Seq<char>>(
            received_of(fields)->Ok_0.analysis.name_of(),
        ),
{
    let named = text_from(member(fields, "analysis"@), "analysis"@);
    assert(named is Ok);
    lemma_analysis_name(named->Ok_0, received_of(fields)->Ok_0.analysis);
}

/// Checks the quantity `field` of the request `data`, unless it is the
/// one that `analysis` asks for.
fn check_input(data: &Value, analysis: Analysis, field: &str) -> (r: Result<(), String>)
    ensures
        match r {
            Ok(_) => input_fault(members(*data), analysis, field@) is None,
            Err(message) => input_fault(members(*data), analysis, field@) == Some(message@),
        },
{
    if same_text(field, analysis.name()) {
        Ok(())
    } else {
        quantity_entry(entry(data, field), field)
    }
}

/// Checks the quantities of the request `data` that `analysis` does not
/// ask for: each has to be a JSON number.
pub fn check_inputs(data: &Value, analysis: Analysis) -> (r: Result<(), String>)
    ensures
        match r {
            Ok(_) => inputs_fault(members(*data), analysis) is None,
            Err(message) => inputs_fault(members(*data), analysis) == Some(message@),
        },
{
    match check_input(data, analysis, "n") {
        Err(message) => {
            return Err(message);
        },
        Ok(_) => {},
    }
    match check_input(data, analysis, "alpha") {
        Err(message) => {
            return Err(message);
        },
        Ok(_) => {},
    }
    match check_input(data, analysis, "power") {
        Err(message) => {
            return Err(message);
        },
        Ok(_) => {},
    }
    check_input(data, analysis, "es")
}

/// Reads the tail of the request `data`, which is one-sided where the
/// request does not say.
pub fn read_tail(data: &Value) -> (r: Result<Tail, String>)
    ensures
        agrees(r, requested_tail(members(*data))),
        tail_of(members(*data)) matches Some(tail) ==> r == Ok::<Tail, String>(tail),
{
    match entry(data, "tail") {
        None => Ok(Tail::OneSided),
        Some(found) => match integer_entry(Some(found), "tail") {
            Ok(sides) => match Tail::from_sides(sides) {
                Some(tail) => Ok(tail),
                None => Ok(Tail::OneSided),
            },
            Err(message) => Err(message),
        },
    }
}

impl Received {
    /// Reads the request `data`: which test with which structural
    /// parameters, which quantity is asked for, and which tail. Succeeds
    /// exactly if nothing is wrong with the request, and reports the first
    /// thing that is.
    pub fn from_json(data: &Value) -> (r: Result<Received, String>)
        ensures
            agrees(r, received_of(members(*data))),
    {
        let test_name = match text_entry(entry(data, "test"), "test") {
            Ok(name) => name,
            Err(message) => {
                return Err(message);
            },
        };
        let test = match TestKind::from_str(test_name.as_str(), data) {
            Ok(test) => test,
            Err(message) => {
                return Err(message);
            },
        };
        let analysis_name = match text_entry(entry(data, "analysis"), "analysis") {
            Ok(name) => name,
            Err(message) => {
                return Err(message);
            },
        };
        let analysis = match Analysis::from_str(analysis_name.as_str()) {
            Ok(analysis) => analysis,
            Err(message) => {
                return Err(message);
            },
        };
        match check_inputs(data, analysis) {
            Err(message) => {
                return Err(message);
            },
            Ok(_) => {},
        }
        let tail = match read_tail(data) {
            Ok(tail) => tail,
            Err(message) => {
                return Err(message);
            },
        };
        Ok(Received { test, analysis, tail })
    }
}

/// Reads the request that `text` spells. Succeeds exactly if `text` is a
/// JSON document and nothing is wrong with it as a request, and then gives
/// the document back beside what it says.
pub fn receive(text: &str) -> (r: Result<(Value, Received), String>)
    ensures
        match r {
            Ok((data, received)) => {
                &&& document(text@) == Some(members(data))
                &&& request_of(text@) == Ok::<Received, Seq<char>>(received)
            },
            Err(message) => request_of(text@) == Err::<Received, Seq<char>>(message@),
        },
{
    match json(text) {
        None => Err(String::from_str("Failed to parse json")),
        Some(data) => match Received::from_json(&data) {
            Ok(received) => Ok((data, received)),
            Err(message) => Err(message),
        },
    }
}

} // verus!
