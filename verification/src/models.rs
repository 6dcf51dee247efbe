//! The two records that cross the gateway, and what each one holds.
//!
//! Fractional numbers are carried as IEEE 754 bit patterns: the gateway hands
//! them on without ever reading them, and a bit pattern is handed on exactly.

use vstd::prelude::*;

verus! {

/// An inbound recommendation request. It is checked, and then sent upstream as it came.
#[derive(Clone, Debug, PartialEq)]
pub struct RecommendationRequest {
    /// Playing strength of the caller.
    pub user_rating: u32,
    /// Openings that the caller likes, in the caller's order.
    pub favorite_openings: Vec<String>,
    /// Weighting parameter: the bit pattern of a single-precision number.
    pub alpha_bits: u32,
}

/// What a [`RecommendationRequest`] holds.
pub struct RequestView {
    pub user_rating: u32,
    pub favorite_openings: Seq<Seq<char>>,
    pub alpha_bits: u32,
}

impl View for RecommendationRequest {
    type V = RequestView;

    open spec fn view(&self) -> RequestView {
        RequestView {
            user_rating: self.user_rating,
            favorite_openings: self.favorite_openings.deep_view(),
            alpha_bits: self.alpha_bits,
        }
    }
}

/// One recommendation of the upstream service. The gateway never looks inside.
#[derive(Clone, Debug, PartialEq)]
pub struct RecommendationResponse {
    /// Name of the recommended opening.
    pub opening_name: String,
    /// Family that the opening belongs to, where upstream names one.
    pub archetype: Option<String>,
    /// The opening's moves, in move notation.
    pub moves: String,
    /// Board position after the moves, in Forsyth-Edwards notation.
    pub fen: String,
    /// Combined score: the bit pattern of a double-precision number, as are the five below.
    pub hybrid_score_bits: u64,
    /// Content-based score.
    pub cb_score_bits: u64,
    /// Collaborative-filtering score.
    pub cf_score_bits: u64,
    /// Share of games that White wins.
    pub win_rate_white_bits: u64,
    /// Share of games that Black wins.
    pub win_rate_black_bits: u64,
    /// Share of drawn games.
    pub win_rate_draw_bits: u64,
}

/// What a [`RecommendationResponse`] holds.
pub struct ResponseView {
    pub opening_name: Seq<char>,
    pub archetype: Option<Seq<char>>,
    pub moves: Seq<char>,
    pub fen: Seq<char>,
    pub hybrid_score_bits: u64,
    pub cb_score_bits: u64,
    pub cf_score_bits: u64,
    pub win_rate_white_bits: u64,
    pub win_rate_black_bits: u64,
    pub win_rate_draw_bits: u64,
}

impl View for RecommendationResponse {
    type V = ResponseView;

    open spec fn view(&self) -> ResponseView {
        ResponseView {
            opening_name: self.opening_name@,
            archetype: match self.archetype {
                Some(name) => Some(name@),
                None => None,
            },
            moves: self.moves@,
            fen: self.fen@,
            hybrid_score_bits: self.hybrid_score_bits,
            cb_score_bits: self.cb_score_bits,
            cf_score_bits: self.cf_score_bits,
            win_rate_white_bits: self.win_rate_white_bits,
            win_rate_black_bits: self.win_rate_black_bits,
            win_rate_draw_bits: self.win_rate_draw_bits,
        }
    }
}

impl DeepView for RecommendationResponse {
    type V = ResponseView;

    open spec fn deep_view(&self) -> ResponseView {
        self@
    }
}

} // verus!
