//! Checks that an inbound request must pass before anything is sent upstream.

use crate::models::{RecommendationRequest, RequestView};
use vstd::prelude::*;

verus! {

/// Lowest rating that a request may carry.
pub const MIN_RATING: u32 = 500;

/// Highest rating that a request may carry.
pub const MAX_RATING: u32 = 3000;

/// Why a request is turned away.
#[derive(Clone, Copy, Debug, PartialEq, Eq, Structural)]
pub enum Rejection {
    /// The request names no opening.
    NoOpenings,
    /// The rating lies outside [`MIN_RATING`]..=[`MAX_RATING`].
    RatingOutOfRange,
}

/// Whether `rating` lies in the accepted range, both ends included.
pub open spec fn rating_in_range(rating: u32) -> bool {
    MIN_RATING <= rating <= MAX_RATING
}

/// The one complaint raised against `request`, if any. An empty list of
/// openings is reported before a rating out of range; the weighting parameter
/// is never looked at.
pub open spec fn rejection_of(request: RequestView) -> Option<Rejection> {
    if request.favorite_openings.len() == 0 {
        Some(Rejection::NoOpenings)
    } else if !rating_in_range(request.user_rating) {
        Some(Rejection::RatingOutOfRange)
    } else {
        None
    }
}

/// A request is acceptable when nothing is raised against it.
pub open spec fn acceptable(request: RequestView) -> bool {
    request.favorite_openings.len() > 0 && rating_in_range(request.user_rating)
}

impl Rejection {
    /// The reason as the caller reads it.
    pub open spec fn spec_message(self) -> Seq<char> {
        match self {
            Rejection::NoOpenings => "Wajib pilih minimal 1 opening!"@,
            Rejection::RatingOutOfRange => "Rating tidak valid (500-3000)"@,
        }
    }

    /// The reason as the caller reads it.
    pub fn message(&self) -> (text: &'static str)
        ensures
            text@ == self.spec_message(),
    {
        match self {
            Rejection::NoOpenings => "Wajib pilih minimal 1 opening!",
            Rejection::RatingOutOfRange => "Rating tidak valid (500-3000)",
        }
    }
}

/// A request is acceptable exactly when no complaint is raised against it.
pub proof fn lemma_acceptable_means_no_rejection(request: RequestView)
    ensures
        acceptable(request) <==> rejection_of(request) is None,
{
}

/// Checks a request. It passes exactly when it names at least one opening and
/// its rating is in range; otherwise the first failing check is reported.
pub fn validate(request: &RecommendationRequest) -> (verdict: Result<(), Rejection>)
    ensures
        verdict is Ok <==> acceptable(request@),
        match verdict {
            Ok(_) => rejection_of(request@) is None,
            Err(reason) => rejection_of(request@) == Some(reason),
        },
{
    if request.favorite_openings.len() == 0 {
        Err(Rejection::NoOpenings)
    } else if request.user_rating < MIN_RATING || request.user_rating > MAX_RATING {
        Err(Rejection::RatingOutOfRange)
    } else {
        Ok(())
    }
}

} // verus!
