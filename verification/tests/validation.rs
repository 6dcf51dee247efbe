use recommend_gateway::models::RecommendationRequest;
use recommend_gateway::validation::{validate, Rejection, MAX_RATING, MIN_RATING};

fn request(user_rating: u32, openings: &[&str], alpha: f32) -> RecommendationRequest {
    RecommendationRequest {
        user_rating,
        favorite_openings: openings.iter().map(|name| name.to_string()).collect(),
        alpha_bits: alpha.to_bits(),
    }
}

#[test]
fn accepts_a_plain_request() {
    assert_eq!(validate(&request(1200, &["Sicilian Defense"], 0.5)), Ok(()));
}

#[test]
fn rating_bounds_are_500_and_3000() {
    assert_eq!(MIN_RATING, 500);
    assert_eq!(MAX_RATING, 3000);
}

#[test]
fn accepts_both_ends_of_the_rating_range() {
    assert_eq!(validate(&request(500, &["Ruy Lopez"], 0.0)), Ok(()));
    assert_eq!(validate(&request(3000, &["Ruy Lopez"], 0.0)), Ok(()));
}

#[test]
fn rejects_ratings_just_outside_the_range() {
    assert_eq!(validate(&request(499, &["Ruy Lopez"], 0.0)), Err(Rejection::RatingOutOfRange));
    assert_eq!(validate(&request(3001, &["Ruy Lopez"], 0.0)), Err(Rejection::RatingOutOfRange));
}

#[test]
fn rejects_extreme_ratings() {
    assert_eq!(validate(&request(0, &["Ruy Lopez"], 0.0)), Err(Rejection::RatingOutOfRange));
    assert_eq!(validate(&request(u32::MAX, &["Ruy Lopez"], 0.0)), Err(Rejection::RatingOutOfRange));
}

#[test]
fn rejects_a_request_without_openings() {
    assert_eq!(validate(&request(1200, &[], 0.5)), Err(Rejection::NoOpenings));
}

#[test]
fn missing_openings_are_reported_before_a_bad_rating() {
    assert_eq!(validate(&request(10, &[], 0.5)), Err(Rejection::NoOpenings));
    assert_eq!(validate(&request(9000, &[], 0.5)), Err(Rejection::NoOpenings));
}

#[test]
fn an_empty_opening_name_still_counts_as_an_opening() {
    assert_eq!(validate(&request(1200, &[""], 0.5)), Ok(()));
}

#[test]
fn many_openings_are_accepted() {
    assert_eq!(validate(&request(2100, &["Sicilian Defense", "Caro-Kann", "London System"], 0.5)), Ok(()));
}

#[test]
fn the_weighting_parameter_is_never_checked() {
    for alpha in [0.0f32, -1.0, 1.0e30, f32::INFINITY, f32::NEG_INFINITY, f32::NAN] {
        assert_eq!(validate(&request(1500, &["Italian Game"], alpha)), Ok(()));
        assert_eq!(validate(&request(1500, &[], alpha)), Err(Rejection::NoOpenings));
        assert_eq!(validate(&request(400, &["Italian Game"], alpha)), Err(Rejection::RatingOutOfRange));
    }
}

#[test]
fn each_rejection_has_its_own_reason() {
    assert_eq!(Rejection::NoOpenings.message(), "Wajib pilih minimal 1 opening!");
    assert_eq!(Rejection::RatingOutOfRange.message(), "Rating tidak valid (500-3000)");
}
