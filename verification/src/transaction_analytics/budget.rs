//! Budget recommendations from users' spending by category.

use crate::tally::{saturate, saturating_add, saturating_mul, trunc_div};
use crate::transaction_analytics::types::{
    BudgetRecommendation, CategoryLimit, CategorySpending, UserBudgetData, MAX_BATCH_SIZE,
};
use vstd::prelude::*;

verus! {

/// The verdict on a user's budget data: the first rule that fails, in this
/// order. The income is positive; the risk tolerance is 1 to 5; no spending
/// is negative; the savings goal, if there is one, is not negative.
pub open spec fn budget_data_verdict(user_data: UserBudgetData) -> Result<(), &'static str> {
    if user_data.monthly_income <= 0 {
        Err("Monthly income must be positive")
    } else if user_data.risk_tolerance < 1 || user_data.risk_tolerance > 5 {
        Err("Risk tolerance must be between 1 and 5")
    } else if exists|i: int|
        0 <= i < user_data.spending_by_category@.len() && (
        #[trigger] user_data.spending_by_category@[i]).amount < 0 {
        Err("Spending amounts cannot be negative")
    } else if user_data.savings_goal matches Some(goal) && goal < 0 {
        Err("Savings goal cannot be negative")
    } else {
        Ok(())
    }
}

/// Validates user budget data before processing recommendations.
pub fn validate_user_budget_data(user_data: &UserBudgetData) -> (verdict: Result<
    (),
    &'static str,
>)
    ensures
        verdict == budget_data_verdict(*user_data),
{
    if user_data.monthly_income <= 0 {
        return Err("Monthly income must be positive");
    }
    if user_data.risk_tolerance < 1 || user_data.risk_tolerance > 5 {
        return Err("Risk tolerance must be between 1 and 5");
    }
    let n = user_data.spending_by_category.len();
    let mut i: usize = 0;
    while i < n
        invariant
            n == user_data.spending_by_category.len(),
            i <= n,
            user_data.monthly_income > 0,
            1 <= user_data.risk_tolerance <= 5,
            forall|j: int|
                0 <= j < i ==> (#[trigger] user_data.spending_by_category@[j]).amount >= 0,
        decreases n - i,
    {
        if user_data.spending_by_category[i].amount < 0 {
            return Err("Spending amounts cannot be negative");
        }
        i = i + 1;
    }
    if let Some(goal) = user_data.savings_goal {
        if goal < 0 {
            return Err("Savings goal cannot be negative");
        }
    }
    Ok(())
}

/// The verdict on a batch of budget data: it is not empty, it holds at most
/// `MAX_BATCH_SIZE` users, and every user's data is valid; the message is
/// that of the first user whose data is not.
pub open spec fn budget_batch_verdict(users: Seq<UserBudgetData>) -> Result<(), &'static str>
    decreases users.len(),
{
    if users.len() == 0 {
        Err("Batch cannot be empty")
    } else if users.len() > MAX_BATCH_SIZE {
        Err("Batch exceeds maximum size")
    } else {
        first_refusal(users)
    }
}

/// The verdict on the first user of `users` whose data is not valid, or
/// `Ok` where there is none.
pub open spec fn first_refusal(users: Seq<UserBudgetData>) -> Result<(), &'static str>
    decreases users.len(),
{
    if users.len() == 0 {
        Ok(())
    } else if first_refusal(users.drop_last()) is Err {
        first_refusal(users.drop_last())
    } else {
        budget_data_verdict(users.last())
    }
}

/// Validates a batch of user budget data.
pub fn validate_batch_budget_data(users: &Vec<UserBudgetData>) -> (verdict: Result<
    (),
    &'static str,
>)
    ensures
        verdict == budget_batch_verdict(users@),
{
    let count = users.len();
    if count == 0 {
        return Err("Batch cannot be empty");
    }
    if count > MAX_BATCH_SIZE as usize {
        return Err("Batch exceeds maximum size");
    }
    let mut i: usize = 0;
    assert(users@.take(0) =~= Seq::<UserBudgetData>::empty());
    while i < count
        invariant
            count == users.len(),
            0 < count <= MAX_BATCH_SIZE,
            i <= count,
            first_refusal(users@.take(i as int)) is Ok,
        decreases count - i,
    {
        proof {
            assert(users@.take(i + 1).drop_last() =~= users@.take(i as int));
            assert(users@.take(i + 1).last() == users@[i as int]);
        }
        if let Err(e) = validate_user_budget_data(&users[i]) {
            proof {
                lemma_refusal_stays(users@, i + 1);
            }
            return Err(e);
        }
        i = i + 1;
    }
    assert(users@.take(count as int) =~= users@);
    Ok(())
}

/// The first refusal among a prefix of the users is the first refusal among
/// all of them.
proof fn lemma_refusal_stays(users: Seq<UserBudgetData>, upto: int)
    requires
        0 <= upto <= users.len(),
        first_refusal(users.take(upto)) is Err,
    ensures
        first_refusal(users) == first_refusal(users.take(upto)),
    decreases users.len() - upto,
{
    if upto < users.len() {
        assert(users.take(upto + 1).drop_last() =~= users.take(upto));
        lemma_refusal_stays(users, upto + 1);
    } else {
        assert(users.take(upto) =~= users);
    }
}

/// The spending of `entries` added up in their order, each partial sum capped
/// to the range of an amount.
pub open spec fn spending_total(entries: Seq<CategorySpending>) -> i128
    decreases entries.len(),
{
    if entries.len() == 0 {
        0
    } else {
        saturate(spending_total(entries.drop_last()) + entries.last().amount)
    }
}

/// The share of the income for needs, in basis points, by risk tolerance.
pub open spec fn needs_bps(risk_tolerance: u32) -> int {
    if risk_tolerance >= 4 {
        4000
    } else {
        5000
    }
}

/// The share of the income for wants, in basis points, by risk tolerance.
pub open spec fn wants_bps(risk_tolerance: u32) -> int {
    if risk_tolerance >= 4 || risk_tolerance <= 2 {
        2000
    } else {
        3000
    }
}

/// The share of the income to save, in basis points, by risk tolerance.
pub open spec fn savings_bps(risk_tolerance: u32) -> int {
    if risk_tolerance >= 4 {
        4000
    } else if risk_tolerance <= 2 {
        3000
    } else {
        2000
    }
}

/// The number of months of expenses that the emergency fund should cover, by
/// risk tolerance.
pub open spec fn emergency_months(risk_tolerance: u32) -> int {
    if risk_tolerance <= 2 {
        6
    } else if risk_tolerance == 3 {
        4
    } else {
        3
    }
}

/// The part of `income` given by `bps` basis points: the capped product
/// divided by 10000, rounded towards zero.
pub open spec fn portion(income: i128, bps: int) -> i128 {
    trunc_div(saturate(income * bps) as int, 10000) as i128
}

/// The budget for needs and wants together, capped.
pub open spec fn spending_budget(user_data: UserBudgetData) -> i128 {
    saturate(
        portion(user_data.monthly_income, needs_bps(user_data.risk_tolerance)) + portion(
            user_data.monthly_income,
            wants_bps(user_data.risk_tolerance),
        ),
    )
}

/// The limit recommended for a category in which the user spends `spending`
/// out of `total_spending`: the category's share of the budget, in basis
/// points rounded towards zero, and a tenth on top. Every product is capped.
pub open spec fn category_limit(budget: i128, spending: i128, total_spending: i128) -> i128 {
    let proportion = trunc_div(saturate(spending * 10000) as int, total_spending as int) as i128;
    let category_budget = trunc_div(saturate(budget * proportion) as int, 10000) as i128;
    trunc_div(saturate(category_budget * 110) as int, 100) as i128
}

/// The limits recommended for the user's categories: one per category and in
/// their order where the user spends anything in total, and else the whole
/// budget under the one category `general`.
pub open spec fn limits_match(limits: Seq<CategoryLimit>, user_data: UserBudgetData) -> bool {
    let entries = user_data.spending_by_category@;
    let total = spending_total(entries);
    if total > 0 {
        &&& limits.len() == entries.len()
        &&& forall|i: int|
            0 <= i < entries.len() ==> (#[trigger] limits[i]).category == entries[i].category
                && limits[i].limit == category_limit(
                spending_budget(user_data),
                entries[i].amount,
                total,
            )
    } else {
        &&& limits.len() == 1
        &&& limits[0].category@ == "general"@
        &&& limits[0].limit == spending_budget(user_data)
    }
}

/// The savings to recommend: the user's goal where there is one of at most
/// half the income, and else the share of the income given by the risk
/// tolerance.
pub open spec fn savings_of(user_data: UserBudgetData) -> i128 {
    match user_data.savings_goal {
        Some(goal) => if goal <= trunc_div(user_data.monthly_income as int, 2) {
            goal
        } else {
            portion(user_data.monthly_income, savings_bps(user_data.risk_tolerance))
        },
        None => portion(user_data.monthly_income, savings_bps(user_data.risk_tolerance)),
    }
}

/// The emergency fund to recommend: the budget of the months given by the
/// risk tolerance, capped.
pub open spec fn emergency_fund_of(user_data: UserBudgetData) -> i128 {
    saturate(spending_budget(user_data) * emergency_months(user_data.risk_tolerance))
}

/// The confidence in the recommendation: 90 with five categories or more and
/// a positive total spending, 75 with three categories or more, and else 60.
pub open spec fn confidence_of(user_data: UserBudgetData) -> u8 {
    let entries = user_data.spending_by_category@;
    if entries.len() >= 5 && spending_total(entries) > 0 {
        90
    } else if entries.len() >= 3 {
        75
    } else {
        60
    }
}

/// Whether `recommendation` is the recommendation for `user_data` generated
/// at the ledger sequence `current_ledger`.
pub open spec fn is_recommendation_for(
    recommendation: BudgetRecommendation,
    user_data: UserBudgetData,
    current_ledger: u64,
) -> bool {
    &&& recommendation.user == user_data.user
    &&& limits_match(recommendation.recommended_limits@, user_data)
    &&& recommendation.recommended_savings == savings_of(user_data)
    &&& recommendation.recommended_emergency_fund == emergency_fund_of(user_data)
    &&& recommendation.confidence_score == confidence_of(user_data)
    &&& recommendation.generated_at == current_ledger
}

/// Computes the part of an income given by a number of basis points.
fn portion_of(income: i128, bps: i128) -> (part: i128)
    ensures
        part == portion(income, bps as int),
{
    saturating_mul(income, bps) / 10000
}

/// Adds up the user's spending.
fn total_spending_of(entries: &Vec<CategorySpending>) -> (total: i128)
    ensures
        total == spending_total(entries@),
{
    let n = entries.len();
    let mut total: i128 = 0;
    let mut i: usize = 0;
    assert(entries@.take(0) =~= Seq::<CategorySpending>::empty());
    while i < n
        invariant
            n == entries.len(),
            i <= n,
            total == spending_total(entries@.take(i as int)),
        decreases n - i,
    {
        assert(entries@.take(i + 1).drop_last() =~= entries@.take(i as int));
        total = saturating_add(total, entries[i].amount);
        i = i + 1;
    }
    assert(entries@.take(n as int) =~= entries@);
    total
}

/// Generates a budget recommendation for a single user from the income, the
/// spending by category, the savings goal and the risk tolerance.
pub fn generate_budget_recommendation(user_data: &UserBudgetData, current_ledger: u64) -> (recommendation:
    BudgetRecommendation)
    ensures
        is_recommendation_for(recommendation, *user_data, current_ledger),
{
    let monthly_income = user_data.monthly_income;
    let total_spending = total_spending_of(&user_data.spending_by_category);
    let risk = user_data.risk_tolerance;
    let needs_percentage_bps: i128 = if risk >= 4 {
        4000
    } else {
        5000
    };
    let wants_percentage_bps: i128 = if risk >= 4 || risk <= 2 {
        2000
    } else {
        3000
    };
    let savings_percentage_bps: i128 = if risk >= 4 {
        4000
    } else if risk <= 2 {
        3000
    } else {
        2000
    };
    let recommended_needs = portion_of(monthly_income, needs_percentage_bps);
    let recommended_wants = portion_of(monthly_income, wants_percentage_bps);
    let recommended_savings = portion_of(monthly_income, savings_percentage_bps);
    let emergency_fund_months: i128 = if risk <= 2 {
        6
    } else if risk == 3 {
        4
    } else {
        3
    };
    let total_budget = saturating_add(recommended_needs, recommended_wants);
    let recommended_emergency_fund = saturating_mul(total_budget, emergency_fund_months);
    let mut recommended_limits: Vec<CategoryLimit> = Vec::new();
    let n = user_data.spending_by_category.len();
    if total_spending > 0 {
        let mut i: usize = 0;
        while i < n
            invariant
                n == user_data.spending_by_category.len(),
                i <= n,
                total_spending > 0,
                recommended_limits@.len() == i,
                forall|j: int|
                    0 <= j < i ==> (#[trigger] recommended_limits@[j]).category
                        == user_data.spending_by_category@[j].category
                        && recommended_limits@[j].limit == category_limit(
                        total_budget,
                        user_data.spending_by_category@[j].amount,
                        total_spending,
                    ),
            decreases n - i,
        {
            let entry = &user_data.spending_by_category[i];
            let proportion = saturating_mul(entry.amount, 10000) / total_spending;
            let category_budget = saturating_mul(total_budget, proportion) / 10000;
            let limit = saturating_mul(category_budget, 110) / 100;
            recommended_limits.push(CategoryLimit { category: entry.category.clone(), limit });
            i = i + 1;
        }
    } else {
        recommended_limits.push(
            CategoryLimit { category: "general".to_owned(), limit: total_budget },
        );
    }
    let final_savings = match user_data.savings_goal {
        Some(user_goal) => if user_goal <= monthly_income / 2 {
            user_goal
        } else {
            recommended_savings
        },
        None => recommended_savings,
    };
    let confidence_score: u8 = if n >= 5 && total_spending > 0 {
        90
    } else if n >= 3 {
        75
    } else {
        60
    };
    BudgetRecommendation {
        user: user_data.user,
        recommended_limits,
        recommended_savings: final_savings,
        recommended_emergency_fund,
        confidence_score,
        generated_at: current_ledger,
    }
}

/// Generates budget recommendations for multiple users in a batch: one per
/// user, in the order of the users.
pub fn generate_batch_recommendations(users: &Vec<UserBudgetData>, current_ledger: u64) -> (recommendations:
    Vec<BudgetRecommendation>)
    ensures
        recommendations@.len() == users@.len(),
        forall|i: int|
            0 <= i < users@.len() ==> is_recommendation_for(
                #[trigger] recommendations@[i],
                users@[i],
                current_ledger,
            ),
{
    let n = users.len();
    let mut recommendations: Vec<BudgetRecommendation> = Vec::new();
    let mut i: usize = 0;
    while i < n
        invariant
            n == users.len(),
            i <= n,
            recommendations@.len() == i,
            forall|j: int|
                0 <= j < i ==> is_recommendation_for(
                    #[trigger] recommendations@[j],
                    users@[j],
                    current_ledger,
                ),
        decreases n - i,
    {
        let recommendation = generate_budget_recommendation(&users[i], current_ledger);
        recommendations.push(recommendation);
        i = i + 1;
    }
    recommendations
}

} // verus!
