//! Sampling: classify what the location provider returned on one tick and
//! turn the first candidate into a sample ready for reporting.
//!
//! The provider hands back candidate geolocations whose coordinates are
//! already rendered as decimal text, together with a human-readable address.
//! The sampler selects the first candidate deterministically (the provider is
//! responsible for ranking) and formats its coordinates as the single string
//! `"<longitude>,<latitude>"`, with no rounding of its own.

use vstd::prelude::*;
use vstd::string::StringExecFns;

verus! {

/// A candidate geolocation, as handed in by the location provider: both
/// coordinates in the provider's own decimal rendering, plus an address.
pub struct Candidate {
    pub longitude: String,
    pub latitude: String,
    pub address: String,
}

/// The mathematical model of a candidate: the three strings as character
/// sequences.
pub struct CandidateModel {
    pub longitude: Seq<char>,
    pub latitude: Seq<char>,
    pub address: Seq<char>,
}

impl View for Candidate {
    type V = CandidateModel;

    open spec fn view(&self) -> CandidateModel {
        CandidateModel {
            longitude: self.longitude@,
            latitude: self.latitude@,
            address: self.address@,
        }
    }
}

/// One tick's sample: the formatted `"<longitude>,<latitude>"` location and
/// the candidate's address.
pub struct Sample {
    pub location: String,
    pub address: String,
}

/// The mathematical model of a sample.
pub struct SampleModel {
    pub location: Seq<char>,
    pub address: Seq<char>,
}

impl View for Sample {
    type V = SampleModel;

    open spec fn view(&self) -> SampleModel {
        SampleModel { location: self.location@, address: self.address@ }
    }
}

/// What one tick of sampling produced.
pub enum SampleOutcome {
    /// The provider returned at least one candidate; this is the first one,
    /// formatted.
    Found(Sample),
    /// The provider returned zero candidates.
    Empty,
    /// The provider failed; the message describes the failure.
    Failed(String),
}

/// The location string of a candidate: its longitude, a comma, its latitude.
pub open spec fn location_model(longitude: Seq<char>, latitude: Seq<char>) -> Seq<char> {
    longitude + seq![','] + latitude
}

/// The sample made from a candidate: its formatted location and its address.
pub open spec fn sample_model(c: CandidateModel) -> SampleModel {
    SampleModel { location: location_model(c.longitude, c.latitude), address: c.address }
}

/// Format a candidate's coordinates as `"<longitude>,<latitude>"`.
pub fn format_location(longitude: &str, latitude: &str) -> (r: String)
    ensures
        r@ == location_model(longitude@, latitude@),
{
    proof {
        reveal_strlit(",");
    }
    let lng = String::from_str(longitude);
    let with_comma = lng.concat(",");
    let r = with_comma.concat(latitude);
    proof {
        assert(r@ =~= location_model(longitude@, latitude@));
    }
    r
}

/// Make the tick's sample from a candidate.
pub fn sample_from_candidate(c: &Candidate) -> (r: Sample)
    ensures
        r@ == sample_model(c@),
{
    Sample {
        location: format_location(c.longitude.as_str(), c.latitude.as_str()),
        address: c.address.clone(),
    }
}

/// Classify what the provider returned on one tick: the first candidate of a
/// non-empty answer becomes the sample; an empty answer and a provider
/// failure both mean "no sample this tick" and are never escalated.
pub fn classify_outcome(answer: Result<Vec<Candidate>, String>) -> (r: SampleOutcome)
    ensures
        answer matches Ok(cs) ==> (if cs@.len() > 0 {
            r matches SampleOutcome::Found(s) && s@ == sample_model(cs@[0]@)
        } else {
            r is Empty
        }),
        answer matches Err(m) ==> (r matches SampleOutcome::Failed(e) && e@ == m@),
{
    match answer {
        Ok(candidates) => {
            if candidates.len() == 0 {
                SampleOutcome::Empty
            } else {
                SampleOutcome::Found(sample_from_candidate(&candidates[0]))
            }
        },
        Err(message) => SampleOutcome::Failed(message),
    }
}

} // verus!
