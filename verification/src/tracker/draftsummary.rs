//! The counts behind the draft summary of a set: the wildcards, packs and cards the user owns,
//! what the set holds, and what the drafts played cost. The rates and the critical points that
//! the summary derives from them are floating-point and stay with the window. The headings
//! that name the set are made here too.

use vstd::prelude::*;
use crate::text::{concat_str, to_uppercase, uppercase};

verus! {

/// What a played draft cost and gave, as the summary reads it.
#[derive(Debug, Clone, Copy, PartialEq, Eq, Structural)]
pub struct DraftDetails {
    pub cost_in_gems: u32,
    pub cost_in_gold: u32,
    pub reward_gems: u32,
    pub rares_collected: u32,
    pub mythics_collected: u32,
    pub wins: u32,
    pub losses: u32,
    pub bo3: bool,
}

/// The sum of the counts.
pub open spec fn count_sum(counts: Seq<u32>) -> int
    decreases counts.len(),
{
    if counts.len() == 0 {
        0
    } else {
        count_sum(counts.drop_last()) + counts.last()
    }
}

/// The gems the drafts cost, less the gems they gave back.
pub open spec fn gems_spent(drafts: Seq<DraftDetails>) -> int
    decreases drafts.len(),
{
    if drafts.len() == 0 {
        0
    } else {
        gems_spent(drafts.drop_last()) + drafts.last().cost_in_gems - drafts.last().reward_gems
    }
}

/// The gold the drafts cost, less the gold worth of the gems they gave back (a pack is 1000
/// gold or 200 gems, so a gem is worth 5 gold).
pub open spec fn gold_spent(drafts: Seq<DraftDetails>) -> int
    decreases drafts.len(),
{
    if drafts.len() == 0 {
        0
    } else {
        gold_spent(drafts.drop_last()) + drafts.last().cost_in_gold - 5 * drafts.last().reward_gems
    }
}

/// Whether the running total of the gems spent stays within `u32` at every step: adding a
/// draft's cost does not overflow, and taking its reward off does not go below zero.
pub open spec fn gems_total_fits(drafts: Seq<DraftDetails>) -> bool {
    forall|n: int| 0 <= n < drafts.len() ==> {
        &&& gems_spent(#[trigger] drafts.take(n)) + drafts[n].cost_in_gems <= u32::MAX
        &&& gems_spent(drafts.take(n)) + drafts[n].cost_in_gems >= drafts[n].reward_gems
    }
}

/// Whether the running total of the gold spent stays within `u32` at every step, the gold
/// worth of each reward included.
pub open spec fn gold_total_fits(drafts: Seq<DraftDetails>) -> bool {
    forall|n: int| 0 <= n < drafts.len() ==> {
        &&& gold_spent(#[trigger] drafts.take(n)) + drafts[n].cost_in_gold <= u32::MAX
        &&& 5 * drafts[n].reward_gems <= u32::MAX
        &&& gold_spent(drafts.take(n)) + drafts[n].cost_in_gold >= 5 * drafts[n].reward_gems
    }
}

/// The view of a draft summary.
pub struct DraftSummaryView {
    pub rare_wc_owned: u32,
    pub mythic_wc_owned: u32,
    pub packs_owned: u32,
    pub rares_owned: u32,
    pub mythics_owned: u32,
    pub rares_in_set: u32,
    pub mythics_in_set: u32,
    pub drafts_played: Seq<DraftDetails>,
}

/// The counts of the draft summary of a set for a user.
pub struct DraftSummaryModel {
    rare_wc_owned: u32,
    mythic_wc_owned: u32,
    packs_owned: u32,
    rares_owned: u32,
    mythics_owned: u32,
    rares_in_set: u32,
    mythics_in_set: u32,
    drafts_played: Vec<DraftDetails>,
}

impl View for DraftSummaryModel {
    type V = DraftSummaryView;

    closed spec fn view(&self) -> DraftSummaryView {
        DraftSummaryView {
            rare_wc_owned: self.rare_wc_owned,
            mythic_wc_owned: self.mythic_wc_owned,
            packs_owned: self.packs_owned,
            rares_owned: self.rares_owned,
            mythics_owned: self.mythics_owned,
            rares_in_set: self.rares_in_set,
            mythics_in_set: self.mythics_in_set,
            drafts_played: self.drafts_played@,
        }
    }
}

/// The sum of the counts of the cards the user owns.
fn sum_counts(counts: &[u32]) -> (r: u32)
    requires
        count_sum(counts@) <= u32::MAX,
    ensures
        r == count_sum(counts@),
{
    let mut sum: u32 = 0;
    let mut i: usize = 0;
    while i < counts.len()
        invariant
            i <= counts.len(),
            count_sum(counts@) <= u32::MAX,
            sum == count_sum(counts@.take(i as int)),
        decreases counts.len() - i,
    {
        assert(counts@.take(i + 1).drop_last() =~= counts@.take(i as int));
        proof {
            lemma_count_sum_prefix(counts@, i + 1);
        }
        sum = sum + counts[i];
        i = i + 1;
    }
    assert(counts@.take(i as int) =~= counts@);
    sum
}

/// A prefix of the counts sums to no more than all of them.
proof fn lemma_count_sum_prefix(counts: Seq<u32>, n: int)
    requires
        0 <= n <= counts.len(),
    ensures
        count_sum(counts.take(n)) <= count_sum(counts),
    decreases counts.len(),
{
    if n < counts.len() {
        assert(counts.drop_last().take(n) =~= counts.take(n));
        lemma_count_sum_prefix(counts.drop_last(), n);
    } else {
        assert(counts.take(n) =~= counts);
    }
}

impl DraftSummaryModel {
    /// The summary of a set for a user: the rare and mythic wildcards and the packs of the set
    /// the user owns, the number of rare and mythic cards in the set's boosters (the set holds
    /// four copies of each), how many copies the user owns of each rare and each mythic card
    /// of the set, and the drafts the user played.
    pub fn new(
        rare_wc_owned: u32,
        mythic_wc_owned: u32,
        packs_owned: u32,
        rare_cards_in_boosters: usize,
        mythic_cards_in_boosters: usize,
        rare_counts: &[u32],
        mythic_counts: &[u32],
        drafts_played: Vec<DraftDetails>,
    ) -> (r: DraftSummaryModel)
        requires
            (rare_cards_in_boosters as u32) * 4 <= u32::MAX,
            (mythic_cards_in_boosters as u32) * 4 <= u32::MAX,
            count_sum(rare_counts@) <= u32::MAX,
            count_sum(mythic_counts@) <= u32::MAX,
        ensures
            r@ == (DraftSummaryView {
                rare_wc_owned,
                mythic_wc_owned,
                packs_owned,
                rares_owned: count_sum(rare_counts@) as u32,
                mythics_owned: count_sum(mythic_counts@) as u32,
                rares_in_set: ((rare_cards_in_boosters as u32) * 4) as u32,
                mythics_in_set: ((mythic_cards_in_boosters as u32) * 4) as u32,
                drafts_played: drafts_played@,
            }),
    {
        let mythics_in_set = mythic_cards_in_boosters as u32 * 4;
        let rares_in_set = rare_cards_in_boosters as u32 * 4;
        let rares_owned = sum_counts(rare_counts);
        let mythics_owned = sum_counts(mythic_counts);
        DraftSummaryModel {
            rare_wc_owned,
            mythic_wc_owned,
            packs_owned,
            rares_owned,
            mythics_owned,
            rares_in_set,
            mythics_in_set,
            drafts_played,
        }
    }

    pub fn packs_owned(&self) -> (r: u32)
        ensures
            r == self@.packs_owned,
    {
        self.packs_owned
    }

    pub fn rare_wc_owned(&self) -> (r: u32)
        ensures
            r == self@.rare_wc_owned,
    {
        self.rare_wc_owned
    }

    pub fn mythic_wc_owned(&self) -> (r: u32)
        ensures
            r == self@.mythic_wc_owned,
    {
        self.mythic_wc_owned
    }

    pub fn rares_owned(&self) -> (r: u32)
        ensures
            r == self@.rares_owned,
    {
        self.rares_owned
    }

    /// The rare copies of the set the user does not own yet.
    pub fn rares_needed(&self) -> (r: u32)
        requires
            self@.rares_owned <= self@.rares_in_set,
        ensures
            r == self@.rares_in_set - self@.rares_owned,
    {
        self.rares_in_set - self.rares_owned
    }

    pub fn mythics_owned(&self) -> (r: u32)
        ensures
            r == self@.mythics_owned,
    {
        self.mythics_owned
    }

    /// The mythic copies of the set the user does not own yet.
    pub fn mythics_needed(&self) -> (r: u32)
        requires
            self@.mythics_owned <= self@.mythics_in_set,
        ensures
            r == self@.mythics_in_set - self@.mythics_owned,
    {
        self.mythics_in_set - self.mythics_owned
    }

    /// The gems the drafts played cost, less the gems they gave back.
    pub fn gems_spent_total(&self) -> (r: u32)
        requires
            gems_total_fits(self@.drafts_played),
        ensures
            r == gems_spent(self@.drafts_played),
    {
        let drafts = &self.drafts_played;
        let mut sum: u32 = 0;
        let mut i: usize = 0;
        while i < drafts.len()
            invariant
                i <= drafts@.len(),
                gems_total_fits(drafts@),
                sum == gems_spent(drafts@.take(i as int)),
            decreases drafts.len() - i,
        {
            let d = drafts[i];
            assert(gems_spent(drafts@.take(i as int)) + drafts@[i as int].cost_in_gems <= u32::MAX);
            assert(drafts@.take(i + 1).drop_last() =~= drafts@.take(i as int));
            sum = sum + d.cost_in_gems - d.reward_gems;
            i = i + 1;
        }
        assert(drafts@.take(i as int) =~= drafts@);
        sum
    }

    /// The gold the drafts played cost, less the gold worth of the gems they gave back.
    pub fn gold_spent_total(&self) -> (r: u32)
        requires
            gold_total_fits(self@.drafts_played),
        ensures
            r == gold_spent(self@.drafts_played),
    {
        let drafts = &self.drafts_played;
        let mut sum: u32 = 0;
        let mut i: usize = 0;
        while i < drafts.len()
            invariant
                i <= drafts@.len(),
                gold_total_fits(drafts@),
                sum == gold_spent(drafts@.take(i as int)),
            decreases drafts.len() - i,
        {
            let d = drafts[i];
            assert(gold_spent(drafts@.take(i as int)) + drafts@[i as int].cost_in_gold <= u32::MAX);
            assert(drafts@.take(i + 1).drop_last() =~= drafts@.take(i as int));
            sum = sum + d.cost_in_gold - (d.reward_gems * 5);
            i = i + 1;
        }
        assert(drafts@.take(i as int) =~= drafts@);
        sum
    }

    /// The number of drafts played, as a `u32`.
    pub fn drafts_completed(&self) -> (r: u32)
        ensures
            r == self@.drafts_played.len() as u32,
    {
        self.drafts_played.len() as u32
    }
}

/// The headings of the summary that name the set, its name in capitals: the three sections
/// and the labels of the packs and cards owned.
pub struct SummaryHeadings {
    pub rares: String,
    pub mythics: String,
    pub stats: String,
    pub packs_owned: String,
    pub rares_owned: String,
    pub mythics_owned: String,
}

/// The headings of the summary of the set `set`.
pub fn summary_headings(set: &str) -> (r: SummaryHeadings)
    ensures
        r.rares@ == uppercase(set@) + " RARES"@,
        r.mythics@ == uppercase(set@) + " MYTHICS"@,
        r.stats@ == uppercase(set@) + " STATS"@,
        r.packs_owned@ == uppercase(set@) + " Packs Owned (P):"@,
        r.rares_owned@ == uppercase(set@) + " Rares Owned (R):"@,
        r.mythics_owned@ == uppercase(set@) + " Mythics Owned (M):"@,
{
    let set_name = to_uppercase(set);
    let name = set_name.as_str();
    SummaryHeadings {
        rares: concat_str(name, " RARES"),
        mythics: concat_str(name, " MYTHICS"),
        stats: concat_str(name, " STATS"),
        packs_owned: concat_str(name, " Packs Owned (P):"),
        rares_owned: concat_str(name, " Rares Owned (R):"),
        mythics_owned: concat_str(name, " Mythics Owned (M):"),
    }
}

} // verus!
