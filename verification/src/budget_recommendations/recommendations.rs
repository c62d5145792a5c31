//! The rules by which a recommendation is computed from a profile.

use crate::budget_recommendations::types::{
    BatchRecommendationMetrics, BudgetRecommendation, RecommendationResult, UserProfile,
};
use crate::tally::{cap_count, capped_count, fits, saturate, saturating_add, trunc_div};
use vstd::prelude::*;

verus! {

/// The message of a recommendation that cannot be computed within the range
/// of an amount.
pub const ARITHMETIC_OVERFLOW: &'static str = "arithmetic_overflow";

/// What is left of the income after the expenses; nothing where the
/// difference is outside the range of an amount.
pub open spec fn disposable_income(profile: UserProfile) -> int {
    if fits(profile.monthly_income - profile.monthly_expenses) {
        profile.monthly_income - profile.monthly_expenses
    } else {
        0
    }
}

/// The share of the disposable income to save, in percent, by risk
/// tolerance.
pub open spec fn savings_percentage(risk_tolerance: u32) -> int {
    if risk_tolerance == 1 {
        35
    } else if risk_tolerance == 2 {
        30
    } else if risk_tolerance == 4 {
        20
    } else if risk_tolerance == 5 {
        15
    } else {
        25
    }
}

/// The number of months of expenses that the emergency fund should cover, by
/// risk tolerance.
pub open spec fn emergency_fund_months(risk_tolerance: u32) -> int {
    if risk_tolerance == 1 {
        6
    } else if risk_tolerance == 2 {
        5
    } else if risk_tolerance == 4 || risk_tolerance == 5 {
        3
    } else {
        4
    }
}

/// The name of the strategy, by risk tolerance.
pub open spec fn strategy_name(risk_tolerance: u32) -> &'static str {
    if risk_tolerance == 1 {
        "conservative"
    } else if risk_tolerance == 2 {
        "moderate_conservative"
    } else if risk_tolerance == 4 {
        "moderate_aggressive"
    } else if risk_tolerance == 5 {
        "aggressive"
    } else {
        "moderate"
    }
}

/// The savings to recommend: the share of a positive disposable income,
/// rounded towards zero.
pub open spec fn savings_of(profile: UserProfile) -> int {
    if disposable_income(profile) > 0 {
        trunc_div(disposable_income(profile) * savings_percentage(profile.risk_tolerance), 100)
    } else {
        0
    }
}

/// The budget to recommend: the expenses and what is left of the disposable
/// income after the savings.
pub open spec fn budget_of(profile: UserProfile) -> int {
    profile.monthly_expenses + (disposable_income(profile) - savings_of(profile))
}

/// The spending limit to recommend: the budget and a buffer of five percent
/// of it, rounded towards zero.
pub open spec fn spending_limit_of(profile: UserProfile) -> int {
    budget_of(profile) + trunc_div(budget_of(profile) * 5, 100)
}

/// The emergency fund to aim for: the expenses of the months given by the
/// risk tolerance.
pub open spec fn emergency_fund_of(profile: UserProfile) -> int {
    profile.monthly_expenses * emergency_fund_months(profile.risk_tolerance)
}

/// The confidence in the recommendation: 80, ten more with a positive
/// disposable income, five more with savings, twenty less where the expenses
/// exceed the income, and at most 100.
pub open spec fn confidence_of(profile: UserProfile) -> u32 {
    let base: int = 80 + if disposable_income(profile) > 0 {
        10int
    } else {
        0int
    } + if profile.savings_balance > 0 {
        5int
    } else {
        0int
    };
    let adjusted: int = if profile.monthly_expenses > profile.monthly_income {
        base - 20
    } else {
        base
    };
    if adjusted > 100 {
        100
    } else {
        adjusted as u32
    }
}

/// The note that goes with the recommendation.
pub open spec fn notes_of(profile: UserProfile) -> &'static str {
    if disposable_income(profile) < 0 {
        "expenses_exceed_income_review_needed"
    } else if savings_of(profile) == 0 {
        "minimal_savings_capacity"
    } else if profile.savings_balance < trunc_div(emergency_fund_of(profile), 2) {
        "build_emergency_fund_priority"
    } else {
        "on_track_continue_current_strategy"
    }
}

/// Whether every amount on the way to the recommendation is within the range
/// of an amount.
pub open spec fn recommendation_fits(profile: UserProfile) -> bool {
    &&& fits(disposable_income(profile) * savings_percentage(profile.risk_tolerance))
    &&& fits(disposable_income(profile) - savings_of(profile))
    &&& fits(budget_of(profile))
    &&& fits(budget_of(profile) * 5)
    &&& fits(spending_limit_of(profile))
    &&& fits(emergency_fund_of(profile))
}

/// The recommendation for a profile.
pub open spec fn recommendation_of(profile: UserProfile) -> BudgetRecommendation {
    BudgetRecommendation {
        user_id: profile.user_id,
        recommended_budget: budget_of(profile) as i128,
        recommended_savings: savings_of(profile) as i128,
        recommended_spending_limit: spending_limit_of(profile) as i128,
        emergency_fund_target: emergency_fund_of(profile) as i128,
        confidence_score: confidence_of(profile),
        recommendation_type: strategy_name(profile.risk_tolerance),
        notes: notes_of(profile),
    }
}

/// What `generate_recommendation` answers for a profile.
pub open spec fn recommendation_verdict(profile: UserProfile) -> Result<
    BudgetRecommendation,
    &'static str,
> {
    if recommendation_fits(profile) {
        Ok(recommendation_of(profile))
    } else {
        Err(ARITHMETIC_OVERFLOW)
    }
}

/// Generates a budget recommendation for a single user, from the income, the
/// expenses, the savings and the risk tolerance of the profile. The
/// recommendation is refused where an amount on the way to it is outside the
/// range of an amount.
pub fn generate_recommendation(profile: &UserProfile) -> (r: Result<
    BudgetRecommendation,
    &'static str,
>)
    ensures
        r == recommendation_verdict(*profile),
{
    let disposable_income = match profile.monthly_income.checked_sub(profile.monthly_expenses) {
        Some(d) => d,
        None => 0,
    };
    let risk = profile.risk_tolerance;
    let recommendation_type = if risk == 1 {
        "conservative"
    } else if risk == 2 {
        "moderate_conservative"
    } else if risk == 4 {
        "moderate_aggressive"
    } else if risk == 5 {
        "aggressive"
    } else {
        "moderate"
    };
    let savings_percentage: i128 = if risk == 1 {
        35
    } else if risk == 2 {
        30
    } else if risk == 4 {
        20
    } else if risk == 5 {
        15
    } else {
        25
    };
    let share = match disposable_income.checked_mul(savings_percentage) {
        Some(s) => s,
        None => {
            return Err(ARITHMETIC_OVERFLOW);
        },
    };
    let recommended_savings = if disposable_income > 0 {
        share / 100
    } else {
        0
    };
    let kept = match disposable_income.checked_sub(recommended_savings) {
        Some(k) => k,
        None => {
            return Err(ARITHMETIC_OVERFLOW);
        },
    };
    let recommended_budget = match profile.monthly_expenses.checked_add(kept) {
        Some(b) => b,
        None => {
            return Err(ARITHMETIC_OVERFLOW);
        },
    };
    let buffered = match recommended_budget.checked_mul(5) {
        Some(b) => b,
        None => {
            return Err(ARITHMETIC_OVERFLOW);
        },
    };
    let recommended_spending_limit = match recommended_budget.checked_add(buffered / 100) {
        Some(l) => l,
        None => {
            return Err(ARITHMETIC_OVERFLOW);
        },
    };
    let emergency_fund_months: i128 = if risk == 1 {
        6
    } else if risk == 2 {
        5
    } else if risk == 4 || risk == 5 {
        3
    } else {
        4
    };
    let emergency_fund_target = match profile.monthly_expenses.checked_mul(emergency_fund_months) {
        Some(t) => t,
        None => {
            return Err(ARITHMETIC_OVERFLOW);
        },
    };
    let mut confidence_score: u32 = 80;
    if disposable_income > 0 {
        confidence_score = confidence_score + 10;
    }
    if profile.savings_balance > 0 {
        confidence_score = confidence_score + 5;
    }
    if profile.monthly_expenses > profile.monthly_income {
        confidence_score = confidence_score - 20;
    }
    if confidence_score > 100 {
        confidence_score = 100;
    }
    let notes = if disposable_income < 0 {
        "expenses_exceed_income_review_needed"
    } else if recommended_savings == 0 {
        "minimal_savings_capacity"
    } else if profile.savings_balance < emergency_fund_target / 2 {
        "build_emergency_fund_priority"
    } else {
        "on_track_continue_current_strategy"
    };
    Ok(
        BudgetRecommendation {
            user_id: profile.user_id,
            recommended_budget,
            recommended_savings,
            recommended_spending_limit,
            emergency_fund_target,
            confidence_score,
            recommendation_type,
            notes,
        },
    )
}

/// The result that a batch records for a profile.
pub open spec fn result_of(profile: UserProfile) -> RecommendationResult {
    match recommendation_verdict(profile) {
        Ok(recommendation) => RecommendationResult::Success(recommendation),
        Err(error) => RecommendationResult::Failure(profile.user_id, error),
    }
}

/// The results of a batch: that of each profile, in the order of the
/// profiles.
pub open spec fn results_of(profiles: Seq<UserProfile>) -> Seq<RecommendationResult> {
    Seq::new(profiles.len(), |i: int| result_of(profiles[i]))
}

/// The number of recommendations among `results`.
pub open spec fn generated(results: Seq<RecommendationResult>) -> nat
    decreases results.len(),
{
    if results.len() == 0 {
        0
    } else {
        generated(results.drop_last()) + if results.last() is Success {
            1nat
        } else {
            0nat
        }
    }
}

/// The recommended budgets of `results` added up in their order, each partial
/// sum capped to the range of an amount.
pub open spec fn budget_total(results: Seq<RecommendationResult>) -> i128
    decreases results.len(),
{
    if results.len() == 0 {
        0
    } else {
        match results.last() {
            RecommendationResult::Success(r) => saturate(
                budget_total(results.drop_last()) + r.recommended_budget,
            ),
            RecommendationResult::Failure(_, _) => budget_total(results.drop_last()),
        }
    }
}

/// The recommended savings of `results` added up in their order, each partial
/// sum capped to the range of an amount.
pub open spec fn savings_total(results: Seq<RecommendationResult>) -> i128
    decreases results.len(),
{
    if results.len() == 0 {
        0
    } else {
        match results.last() {
            RecommendationResult::Success(r) => saturate(
                savings_total(results.drop_last()) + r.recommended_savings,
            ),
            RecommendationResult::Failure(_, _) => savings_total(results.drop_last()),
        }
    }
}

/// The sum of the confidence scores of the recommendations among `results`.
pub open spec fn confidence_total(results: Seq<RecommendationResult>) -> nat
    decreases results.len(),
{
    if results.len() == 0 {
        0
    } else {
        match results.last() {
            RecommendationResult::Success(r) => confidence_total(results.drop_last())
                + r.confidence_score as nat,
            RecommendationResult::Failure(_, _) => confidence_total(results.drop_last()),
        }
    }
}

/// The metrics of a batch with the given results, processed at the ledger
/// sequence `processed_at`: the numbers of users, of recommendations and of
/// failures; the capped totals of the recommended budgets and savings; and
/// the average confidence score of the recommendations, rounded down, or
/// zero where there is none. Every count is capped at the largest unsigned
/// 32-bit number.
pub open spec fn metrics_of(results: Seq<RecommendationResult>, processed_at: u64) -> BatchRecommendationMetrics {
    BatchRecommendationMetrics {
        user_count: capped_count(results.len()),
        successful_recommendations: capped_count(generated(results)),
        failed_recommendations: capped_count((results.len() - generated(results)) as nat),
        total_recommended_budget: budget_total(results),
        total_recommended_savings: savings_total(results),
        avg_confidence_score: if generated(results) > 0 {
            (confidence_total(results) / generated(results)) as u32
        } else {
            0
        },
        processed_at,
    }
}

/// Generates batch recommendations for multiple users: the result of every
/// profile, in order, and the metrics of the batch.
pub fn generate_batch_recommendations(profiles: &Vec<UserProfile>, processed_at: u64) -> (batch: (
    Vec<RecommendationResult>,
    BatchRecommendationMetrics,
))
    ensures
        batch.0@ == results_of(profiles@),
        batch.1 == metrics_of(batch.0@, processed_at),
        generated(batch.0@) <= profiles@.len(),
{
    let n = profiles.len();
    let mut results: Vec<RecommendationResult> = Vec::new();
    let mut successful_count: usize = 0;
    let mut total_recommended_budget: i128 = 0;
    let mut total_recommended_savings: i128 = 0;
    let mut total_confidence: u128 = 0;
    let mut i: usize = 0;
    while i < n
        invariant
            n == profiles.len(),
            i <= n,
            results@ == results_of(profiles@.take(i as int)),
            successful_count == generated(results@),
            successful_count <= i,
            total_recommended_budget == budget_total(results@),
            total_recommended_savings == savings_total(results@),
            total_confidence == confidence_total(results@),
            total_confidence <= 100 * i,
        decreases n - i,
    {
        let ghost before = results@;
        let result = match generate_recommendation(&profiles[i]) {
            Ok(recommendation) => {
                total_recommended_budget = saturating_add(
                    total_recommended_budget,
                    recommendation.recommended_budget,
                );
                total_recommended_savings = saturating_add(
                    total_recommended_savings,
                    recommendation.recommended_savings,
                );
                total_confidence = total_confidence + recommendation.confidence_score as u128;
                successful_count = successful_count + 1;
                RecommendationResult::Success(recommendation)
            },
            Err(error) => RecommendationResult::Failure(profiles[i].user_id, error),
        };
        results.push(result);
        i = i + 1;
        proof {
            assert(results@.drop_last() =~= before);
            assert(results@ =~= results_of(profiles@.take(i as int)));
        }
    }
    assert(profiles@.take(n as int) =~= profiles@);
    let avg_confidence_score = if successful_count > 0 {
        (total_confidence / successful_count as u128) as u32
    } else {
        0
    };
    let metrics = BatchRecommendationMetrics {
        user_count: cap_count(n),
        successful_recommendations: cap_count(successful_count),
        failed_recommendations: cap_count(n - successful_count),
        total_recommended_budget,
        total_recommended_savings,
        avg_confidence_score,
        processed_at,
    };
    (results, metrics)
}

} // verus!
