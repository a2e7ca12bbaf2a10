//! The reviews that were opened lately.
use crate::effects::{clone_pull_request, PullRequestInfo, PullRequestModel};
use crate::elements::{MenuAction, MenuActionModel, MenuItem, MenuItemModel};
use crate::text::{append_decimal, decimal, opt_view, seq_view};
use vstd::prelude::*;

verus! {

/// How many reviews are remembered.
pub const MAX_RECENT_REVIEWS: usize = 10;

/// A review that was opened: the branches that were compared, how many files differed, and the
/// pull request if it was one.
#[derive(Debug, PartialEq, Eq)]
pub struct RecentReview {
    pub base_branch: String,
    pub head_branch: String,
    pub file_count: usize,
    pub pull_request: Option<PullRequestInfo>,
}

/// A review that was opened, the names as text.
pub struct RecentReviewModel {
    pub base_branch: Seq<char>,
    pub head_branch: Seq<char>,
    pub file_count: usize,
    pub pull_request: Option<PullRequestModel>,
}

impl View for RecentReview {
    type V = RecentReviewModel;

    open spec fn view(&self) -> RecentReviewModel {
        RecentReviewModel {
            base_branch: self.base_branch@,
            head_branch: self.head_branch@,
            file_count: self.file_count,
            pull_request: opt_view(self.pull_request),
        }
    }
}

impl Clone for RecentReview {
    fn clone(&self) -> (review: RecentReview)
        ensures
            review == *self,
    {
        RecentReview {
            base_branch: self.base_branch.clone(),
            head_branch: self.head_branch.clone(),
            file_count: self.file_count,
            pull_request: clone_pull_request(&self.pull_request),
        }
    }
}

/// Whether two reviews compare the same branches.
pub open spec fn same_branches(a: RecentReviewModel, b: RecentReviewModel) -> bool {
    a.base_branch == b.base_branch && a.head_branch == b.head_branch
}

/// Whether a review compares other branches than the given one.
pub open spec fn other_branches(review: RecentReviewModel) -> spec_fn(RecentReviewModel) -> bool {
    |other: RecentReviewModel| !same_branches(other, review)
}

/// The first reviews of a list, as many as are remembered.
pub open spec fn truncated(reviews: Seq<RecentReviewModel>) -> Seq<RecentReviewModel> {
    if reviews.len() <= MAX_RECENT_REVIEWS {
        reviews
    } else {
        reviews.take(MAX_RECENT_REVIEWS as int)
    }
}

/// The list after one more review: the new one first, then those of other branches as they were.
pub open spec fn recorded(
    reviews: Seq<RecentReviewModel>,
    review: RecentReviewModel,
) -> Seq<RecentReviewModel> {
    truncated(seq![review] + reviews.filter(other_branches(review)))
}

/// Whether a list remembers no more reviews than it may, and no two of the same branches.
pub open spec fn is_recent_list(reviews: Seq<RecentReviewModel>) -> bool {
    &&& reviews.len() <= MAX_RECENT_REVIEWS
    &&& forall|i: int, j: int|
        #![trigger reviews[i], reviews[j]]
        0 <= i < j < reviews.len() ==> !same_branches(reviews[i], reviews[j])
}

proof fn lemma_filter_keeps_distinct(
    reviews: Seq<RecentReviewModel>,
    pred: spec_fn(RecentReviewModel) -> bool,
)
    requires
        forall|i: int, j: int|
            #![trigger reviews[i], reviews[j]]
            0 <= i < j < reviews.len() ==> !same_branches(reviews[i], reviews[j]),
    ensures
        ({
            let kept = reviews.filter(pred);
            &&& forall|i: int, j: int|
                #![trigger kept[i], kept[j]]
                0 <= i < j < kept.len() ==> !same_branches(kept[i], kept[j])
            &&& forall|i: int| 0 <= i < kept.len() ==> pred(#[trigger] kept[i])
            &&& forall|i: int|
                0 <= i < kept.len() ==> exists|k: int|
                    0 <= k < reviews.len() && reviews[k] == #[trigger] kept[i]
        }),
    decreases reviews.len(),
{
    reveal(Seq::filter);
    if reviews.len() > 0 {
        let init = reviews.drop_last();
        assert forall|i: int, j: int|
            #![trigger init[i], init[j]]
            0 <= i < j < init.len() implies !same_branches(init[i], init[j]) by {
            assert(!same_branches(reviews[i], reviews[j]));
        }
        lemma_filter_keeps_distinct(init, pred);
        let kept = reviews.filter(pred);
        let before = init.filter(pred);
        assert forall|i: int| 0 <= i < kept.len() implies exists|k: int|
            0 <= k < reviews.len() && reviews[k] == #[trigger] kept[i] by {
            if i < before.len() {
                assert(kept[i] == before[i]);
                let k = choose|k: int| 0 <= k < init.len() && init[k] == before[i];
                assert(reviews[k] == kept[i]);
            } else {
                assert(reviews[reviews.len() - 1] == kept[i]);
            }
        }
        assert forall|i: int, j: int|
            #![trigger kept[i], kept[j]]
            0 <= i < j < kept.len() implies !same_branches(kept[i], kept[j]) by {
            assert(kept[i] == before[i]);
            if j < before.len() {
                assert(!same_branches(before[i], before[j]));
            } else {
                let k = choose|k: int| 0 <= k < init.len() && init[k] == before[i];
                assert(!same_branches(reviews[k], reviews[reviews.len() - 1]));
            }
        }
        assert forall|i: int| 0 <= i < kept.len() implies pred(#[trigger] kept[i]) by {
            if i < before.len() {
                assert(kept[i] == before[i]);
            }
        }
    }
}

/// A recorded review keeps the list short and free of repetition.
pub proof fn law_recorded_is_recent_list(
    reviews: Seq<RecentReviewModel>,
    review: RecentReviewModel,
)
    requires
        is_recent_list(reviews),
    ensures
        is_recent_list(recorded(reviews, review)),
{
    let pred = other_branches(review);
    lemma_filter_keeps_distinct(reviews, pred);
    let kept = reviews.filter(pred);
    let all = seq![review] + kept;
    assert forall|i: int, j: int|
        #![trigger all[i], all[j]]
        0 <= i < j < all.len() implies !same_branches(all[i], all[j]) by {
        assert(all[j] == kept[j - 1]);
        assert(pred(kept[j - 1]));
        if i > 0 {
            assert(!same_branches(kept[i - 1], kept[j - 1]));
        }
    }
}

/// The review recorded last stands first.
pub proof fn law_recorded_first(reviews: Seq<RecentReviewModel>, review: RecentReviewModel)
    ensures
        recorded(reviews, review).len() > 0,
        recorded(reviews, review)[0] == review,
{
}

proof fn lemma_filter_all(
    reviews: Seq<RecentReviewModel>,
    pred: spec_fn(RecentReviewModel) -> bool,
)
    requires
        forall|i: int| 0 <= i < reviews.len() ==> pred(#[trigger] reviews[i]),
    ensures
        reviews.filter(pred) == reviews,
    decreases reviews.len(),
{
    reveal(Seq::filter);
    if reviews.len() > 0 {
        let init = reviews.drop_last();
        assert forall|i: int| 0 <= i < init.len() implies pred(#[trigger] init[i]) by {
            assert(pred(reviews[i]));
        }
        lemma_filter_all(init, pred);
        assert(pred(reviews[reviews.len() - 1]));
        assert(reviews =~= init.push(reviews.last()));
    }
}

proof fn lemma_filter_first(
    first: RecentReviewModel,
    rest: Seq<RecentReviewModel>,
    pred: spec_fn(RecentReviewModel) -> bool,
)
    requires
        !pred(first),
    ensures
        (seq![first] + rest).filter(pred) == rest.filter(pred),
    decreases rest.len(),
{
    reveal(Seq::filter);
    let all = seq![first] + rest;
    if rest.len() == 0 {
        assert(all.drop_last() =~= Seq::empty());
        assert(all.drop_last().filter(pred) =~= Seq::empty());
        assert(rest.filter(pred) =~= Seq::empty());
    } else {
        lemma_filter_first(first, rest.drop_last(), pred);
        assert(all.drop_last() =~= seq![first] + rest.drop_last());
        assert(all.last() == rest.last());
    }
}

/// To load the same review once more does not change the list, whatever else it holds.
pub proof fn law_recorded_twice(reviews: Seq<RecentReviewModel>, review: RecentReviewModel)
    requires
        is_recent_list(reviews),
    ensures
        recorded(recorded(reviews, review), review) == recorded(reviews, review),
{
    let pred = other_branches(review);
    lemma_filter_keeps_distinct(reviews, pred);
    let kept = reviews.filter(pred);
    let once = recorded(reviews, review);
    let rest = once.drop_first();
    assert(once =~= seq![review] + rest);
    assert forall|i: int| 0 <= i < rest.len() implies pred(#[trigger] rest[i]) by {
        assert(rest[i] == kept[i]);
    }
    lemma_filter_all(rest, pred);
    lemma_filter_first(review, rest, pred);
    assert(seq![review] + once.filter(pred) =~= once);
}

/// A review of branches that were not remembered pushes the others down by one place, and the
/// last one out of a full list.
pub proof fn law_recorded_new(reviews: Seq<RecentReviewModel>, review: RecentReviewModel)
    requires
        is_recent_list(reviews),
        forall|i: int| 0 <= i < reviews.len() ==> !same_branches(#[trigger] reviews[i], review),
    ensures
        recorded(reviews, review) == truncated(seq![review] + reviews),
{
    let pred = other_branches(review);
    assert forall|i: int| 0 <= i < reviews.len() implies pred(#[trigger] reviews[i]) by {}
    lemma_filter_all(reviews, pred);
}

/// Records a review: the list then begins with it, holds no other review of the same branches,
/// and is cut to the number that is remembered.
pub fn record_review(reviews: &mut Vec<RecentReview>, review: RecentReview)
    ensures
        seq_view(final(reviews)@) == recorded(seq_view(old(reviews)@), review@),
{
    let ghost models = seq_view(reviews@);
    let ghost pred = other_branches(review@);
    let mut kept: Vec<RecentReview> = Vec::new();
    let mut i: usize = 0;
    proof {
        reveal(Seq::filter);
        assert(models.take(0).filter(pred) =~= Seq::empty());
        assert(seq_view(kept@) =~= Seq::empty());
    }
    while i < reviews.len()
        invariant
            models == seq_view(reviews@),
            pred == other_branches(review@),
            i <= reviews@.len(),
            kept@.len() <= i,
            seq_view(kept@) == models.take(i as int).filter(pred),
        decreases reviews@.len() - i,
    {
        let ghost before = kept@;
        let entry = &reviews[i];
        proof {
            reveal(Seq::filter);
            assert(models.take(i + 1).drop_last() =~= models.take(i as int));
            assert(models.take(i + 1).last() == models[i as int]);
            assert(pred(models[i as int]) == !same_branches(models[i as int], review@));
        }
        if !(entry.base_branch == review.base_branch && entry.head_branch == review.head_branch) {
            kept.push(entry.clone());
            assert(seq_view(kept@) =~= seq_view(before).push(models[i as int]));
        }
        i = i + 1;
    }
    assert(models.take(i as int) =~= models);
    let ghost filtered = kept@;
    kept.insert(0, review);
    proof {
        assert(seq_view(kept@) =~= seq![review@] + seq_view(filtered));
    }
    let ghost all = kept@;
    kept.truncate(MAX_RECENT_REVIEWS);
    proof {
        assert(seq_view(kept@) =~= truncated(seq_view(all)));
    }
    *reviews = kept;
}

impl RecentReviewModel {
    /// How a review is named in the menu.
    pub open spec fn label(self) -> Seq<char> {
        let branches = self.base_branch + ".."@ + self.head_branch + " ("@ + decimal(
            self.file_count as nat,
        ) + " files)"@;
        match self.pull_request {
            Some(pr) => "#"@ + decimal(pr.number as nat) + " "@ + branches,
            None => branches,
        }
    }

    /// The entry of a review in the menu.
    pub open spec fn menu_item(self) -> MenuItemModel {
        MenuItemModel::Entry {
            label: self.label(),
            action: MenuActionModel::OpenRecentReview {
                base: self.base_branch,
                head: self.head_branch,
                pull_request: self.pull_request,
            },
        }
    }
}

/// The menu of the reviews that were opened lately.
pub open spec fn recent_menu(reviews: Seq<RecentReviewModel>) -> Seq<MenuItemModel> {
    if reviews.len() == 0 {
        seq![
            MenuItemModel::Entry {
                label: "No recent reviews"@,
                action: MenuActionModel::Nothing,
            },
        ]
    } else {
        seq![MenuItemModel::Header("Recent"@)] + Seq::new(
            reviews.len(),
            |i: int| reviews[i].menu_item(),
        )
    }
}

impl RecentReview {
    /// How the review is named in the menu.
    pub fn label(&self) -> (label: String)
        ensures
            label@ == self@.label(),
    {
        let mut label = String::new();
        if let Some(pr) = &self.pull_request {
            label.append("#");
            append_decimal(&mut label, pr.number as u64);
            label.append(" ");
        }
        label.append(self.base_branch.as_str());
        label.append("..");
        label.append(self.head_branch.as_str());
        label.append(" (");
        append_decimal(&mut label, self.file_count as u64);
        label.append(" files)");
        assert(label@ =~= self@.label());
        label
    }
}

/// The menu of the reviews that were opened lately.
pub fn build_recent_menu(reviews: &Vec<RecentReview>) -> (menu: Vec<MenuItem>)
    ensures
        seq_view(menu@) == recent_menu(seq_view(reviews@)),
{
    let mut menu: Vec<MenuItem> = Vec::new();
    if reviews.len() == 0 {
        menu.push(
            MenuItem::Entry {
                label: "No recent reviews".to_string(),
                action: MenuAction::Nothing,
            },
        );
        assert(seq_view(menu@) =~= recent_menu(seq_view(reviews@)));
        return menu;
    }
    menu.push(MenuItem::Header("Recent".to_string()));
    let mut i: usize = 0;
    while i < reviews.len()
        invariant
            i <= reviews@.len(),
            menu@.len() == i + 1,
            menu@[0]@ == MenuItemModel::Header("Recent"@),
            forall|k: int|
                1 <= k < menu@.len() ==> (#[trigger] menu@[k])@ == reviews@[k - 1]@.menu_item(),
        decreases reviews@.len() - i,
    {
        let review = &reviews[i];
        menu.push(
            MenuItem::Entry {
                label: review.label(),
                action: MenuAction::OpenRecentReview {
                    base: review.base_branch.clone(),
                    head: review.head_branch.clone(),
                    pull_request: clone_pull_request(&review.pull_request),
                },
            },
        );
        i = i + 1;
    }
    assert(seq_view(menu@) =~= recent_menu(seq_view(reviews@)));
    menu
}

proof fn lemma_filter_split(
    reviews: Seq<RecentReviewModel>,
    k: int,
    pred: spec_fn(RecentReviewModel) -> bool,
)
    requires
        0 <= k < reviews.len(),
        forall|i: int| 0 <= i < reviews.len() ==> (pred(#[trigger] reviews[i]) <==> i != k),
    ensures
        reviews.filter(pred) == reviews.take(k) + reviews.skip(k + 1),
    decreases reviews.len(),
{
    reveal(Seq::filter);
    let front = reviews.drop_last();
    assert(pred(reviews[reviews.len() - 1]) <==> reviews.len() - 1 != k);
    if k == reviews.len() - 1 {
        assert forall|i: int| 0 <= i < front.len() implies pred(#[trigger] front[i]) by {
            assert(pred(reviews[i]));
        }
        lemma_filter_all(front, pred);
        assert(reviews.take(k) + reviews.skip(k + 1) =~= front);
    } else {
        assert forall|i: int| 0 <= i < front.len() implies (pred(#[trigger] front[i]) <==> i
            != k) by {
            assert(pred(reviews[i]) <==> i != k);
        }
        lemma_filter_split(front, k, pred);
        assert(front.take(k) =~= reviews.take(k));
        assert(front.skip(k + 1).push(reviews.last()) =~= reviews.skip(k + 1));
        assert((front.take(k) + front.skip(k + 1)).push(reviews.last()) =~= reviews.take(k)
            + reviews.skip(k + 1));
    }
}

/// A review of branches that are remembered at place `k` takes the first place, with its own count
/// of files and its own pull request; the one at `k` goes and all others keep their order.
pub proof fn law_recorded_again(
    reviews: Seq<RecentReviewModel>,
    review: RecentReviewModel,
    k: int,
)
    requires
        reviews.len() <= 10,
        forall|i: int, j: int|
            #![trigger reviews[i], reviews[j]]
            0 <= i < j < reviews.len() ==> reviews[i].base_branch != reviews[j].base_branch
                || reviews[i].head_branch != reviews[j].head_branch,
        0 <= k < reviews.len(),
        reviews[k].base_branch == review.base_branch,
        reviews[k].head_branch == review.head_branch,
    ensures
        recorded(reviews, review) == seq![review] + (reviews.take(k) + reviews.skip(k + 1)),
{
    let pred = other_branches(review);
    assert forall|i: int| 0 <= i < reviews.len() implies (pred(#[trigger] reviews[i]) <==> i
        != k) by {
        if i < k {
            assert(!same_branches(reviews[i], reviews[k]));
        } else if k < i {
            assert(!same_branches(reviews[k], reviews[i]));
        }
    }
    lemma_filter_split(reviews, k, pred);
}

/// A review of branches of which one at least is not that of any remembered review takes the first
/// place before all others; of ten others the last one goes.
pub proof fn law_recorded_before_all(reviews: Seq<RecentReviewModel>, review: RecentReviewModel)
    requires
        reviews.len() <= 10,
        forall|i: int|
            0 <= i < reviews.len() ==> (#[trigger] reviews[i]).base_branch != review.base_branch
                || reviews[i].head_branch != review.head_branch,
    ensures
        reviews.len() < 10 ==> recorded(reviews, review) == seq![review] + reviews,
        reviews.len() == 10 ==> recorded(reviews, review) == seq![review] + reviews.take(9),
{
    let pred = other_branches(review);
    assert forall|i: int| 0 <= i < reviews.len() implies pred(#[trigger] reviews[i]) by {}
    lemma_filter_all(reviews, pred);
    if reviews.len() == 10 {
        assert((seq![review] + reviews).take(10) =~= seq![review] + reviews.take(9));
    }
}

proof fn lemma_filter_members(
    reviews: Seq<RecentReviewModel>,
    pred: spec_fn(RecentReviewModel) -> bool,
)
    ensures
        reviews.filter(pred).len() <= reviews.len(),
        forall|i: int|
            0 <= i < reviews.filter(pred).len() ==> reviews.contains(
                #[trigger] reviews.filter(pred)[i],
            ) && pred(reviews.filter(pred)[i]),
        forall|review: RecentReviewModel| #[trigger]
            reviews.contains(review) && pred(review) ==> reviews.filter(pred).contains(review),
    decreases reviews.len(),
{
    reveal(Seq::filter);
    if reviews.len() > 0 {
        let front = reviews.drop_last();
        lemma_filter_members(front, pred);
        let before = front.filter(pred);
        let kept = reviews.filter(pred);
        assert forall|i: int| 0 <= i < kept.len() implies reviews.contains(#[trigger] kept[i])
            && pred(kept[i]) by {
            if i < before.len() {
                assert(kept[i] == before[i]);
                let k = choose|k: int| 0 <= k < front.len() && front[k] == before[i];
                assert(reviews[k] == kept[i]);
            } else {
                assert(reviews[reviews.len() - 1] == kept[i]);
            }
        }
        assert forall|review: RecentReviewModel| #[trigger]
            reviews.contains(review) && pred(review) implies kept.contains(review) by {
            let k = choose|k: int| 0 <= k < reviews.len() && reviews[k] == review;
            if k < front.len() {
                assert(front[k] == review);
                assert(front.contains(review));
                let i = choose|i: int| 0 <= i < before.len() && before[i] == review;
                assert(kept[i] == review);
            } else {
                assert(kept[kept.len() - 1] == review);
            }
        }
    }
}

/// Whatever list a review is recorded in, the result is no longer than ten, begins with the review,
/// and holds behind it only reviews of the list that differ from it in a branch; with fewer than
/// ten reviews before, it holds all of those.
pub proof fn law_recorded_members(reviews: Seq<RecentReviewModel>, review: RecentReviewModel)
    ensures
        0 < recorded(reviews, review).len() <= 10,
        recorded(reviews, review)[0] == review,
        forall|i: int|
            1 <= i < recorded(reviews, review).len() ==> reviews.contains(
                #[trigger] recorded(reviews, review)[i],
            ) && (recorded(reviews, review)[i].base_branch != review.base_branch || recorded(
                reviews,
                review,
            )[i].head_branch != review.head_branch),
        reviews.len() < 10 ==> forall|other: RecentReviewModel| #[trigger]
            reviews.contains(other) && (other.base_branch != review.base_branch
                || other.head_branch != review.head_branch) ==> recorded(reviews, review).contains(
                other,
            ),
{
    let pred = other_branches(review);
    let kept = reviews.filter(pred);
    let all = recorded(reviews, review);
    lemma_filter_members(reviews, pred);
    assert forall|i: int| 1 <= i < all.len() implies reviews.contains(#[trigger] all[i]) && (
    all[i].base_branch != review.base_branch || all[i].head_branch != review.head_branch) by {
        assert(all[i] == kept[i - 1]);
    }
    if reviews.len() < 10 {
        assert forall|other: RecentReviewModel| #[trigger]
            reviews.contains(other) && (other.base_branch != review.base_branch
                || other.head_branch != review.head_branch) implies all.contains(other) by {
            assert(pred(other));
            let i = choose|i: int| 0 <= i < kept.len() && kept[i] == other;
            assert(all[i + 1] == other);
        }
    }
}

/// Behind a recorded review the others of which a branch is different stand in the order that they
/// had, up to the ninth.
pub proof fn law_recorded_keeps_order(reviews: Seq<RecentReviewModel>, review: RecentReviewModel)
    ensures
        ({
            let others = reviews.filter(
                |other: RecentReviewModel|
                    other.base_branch != review.base_branch || other.head_branch
                        != review.head_branch,
            );
            recorded(reviews, review) == seq![review] + (if others.len() < 9 {
                others
            } else {
                others.take(9)
            })
        }),
{
    let pred = |other: RecentReviewModel|
        other.base_branch != review.base_branch || other.head_branch != review.head_branch;
    assert(pred =~= other_branches(review));
    let others = reviews.filter(pred);
    if others.len() > 9 {
        assert((seq![review] + others).take(10) =~= seq![review] + others.take(9));
    } else {
        assert(others.len() == 9 ==> others.take(9) =~= others);
    }
}

/// A list of reviews is valid where it holds ten at most and no two agree in both branches.
pub proof fn law_recent_list_valid(reviews: Seq<RecentReviewModel>)
    ensures
        is_recent_list(reviews) <==> reviews.len() <= 10 && forall|i: int, j: int|
            #![trigger reviews[i], reviews[j]]
            0 <= i < j < reviews.len() ==> reviews[i].base_branch != reviews[j].base_branch
                || reviews[i].head_branch != reviews[j].head_branch,
{
}

/// A review is named by its base, its head and the number of its files, with the number of its pull
/// request before them where it has one.
pub proof fn law_review_label(review: RecentReviewModel)
    ensures
        review.pull_request is None ==> review.label() == review.base_branch + ".."@
            + review.head_branch + " ("@ + decimal(review.file_count as nat) + " files)"@,
        review.pull_request is Some ==> review.label() == "#"@ + decimal(
            review.pull_request->0.number as nat,
        ) + " "@ + (RecentReviewModel { pull_request: None, ..review }).label(),
{
}

/// The menu has a header and one entry for each review, in the order of the list; the entry is
/// named as the review and opens its branches and its pull request. Without reviews it has one
/// entry, which does nothing.
pub proof fn law_recent_menu(reviews: Seq<RecentReviewModel>)
    ensures
        reviews.len() == 0 ==> recent_menu(reviews) == seq![
            MenuItemModel::Entry {
                label: "No recent reviews"@,
                action: MenuActionModel::Nothing,
            },
        ],
        reviews.len() > 0 ==> {
            &&& recent_menu(reviews).len() == reviews.len() + 1
            &&& recent_menu(reviews)[0] == MenuItemModel::Header("Recent"@)
            &&& forall|i: int|
                0 <= i < reviews.len() ==> recent_menu(reviews)[i + 1] == (MenuItemModel::Entry {
                    label: (#[trigger] reviews[i]).label(),
                    action: MenuActionModel::OpenRecentReview {
                        base: reviews[i].base_branch,
                        head: reviews[i].head_branch,
                        pull_request: reviews[i].pull_request,
                    },
                })
        },
{
}

/// What a review is, is read off field by field.
pub proof fn law_review_view(review: RecentReview)
    ensures
        review@.base_branch == review.base_branch@,
        review@.head_branch == review.head_branch@,
        review@.file_count == review.file_count,
        review@.pull_request == opt_view(review.pull_request),
{
}

} // verus!
