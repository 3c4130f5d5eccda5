use mtga_tracker::tracker::draftsummary::{summary_headings, DraftDetails, DraftSummaryModel};

fn draft(cost_in_gems: u32, cost_in_gold: u32, reward_gems: u32) -> DraftDetails {
    DraftDetails {
        cost_in_gems,
        cost_in_gold,
        reward_gems,
        rares_collected: 2,
        mythics_collected: 0,
        wins: 3,
        losses: 3,
        bo3: false,
    }
}

#[test]
fn the_draft_summary_counts_what_the_user_owns() {
    let m = DraftSummaryModel::new(5, 2, 7, 60, 20, &[4, 1, 0, 3], &[1, 1], vec![]);
    assert_eq!(m.rare_wc_owned(), 5);
    assert_eq!(m.mythic_wc_owned(), 2);
    assert_eq!(m.packs_owned(), 7);
    assert_eq!(m.rares_owned(), 8);
    assert_eq!(m.mythics_owned(), 2);
    assert_eq!(m.rares_needed(), 240 - 8);
    assert_eq!(m.mythics_needed(), 80 - 2);
    assert_eq!(m.drafts_completed(), 0);
    assert_eq!(m.gems_spent_total(), 0);
}

#[test]
fn the_draft_summary_sums_what_the_drafts_cost() {
    let drafts = vec![draft(750, 5000, 250), draft(1500, 10000, 1000), draft(750, 0, 0)];
    let m = DraftSummaryModel::new(0, 0, 0, 1, 1, &[], &[], drafts);
    assert_eq!(m.drafts_completed(), 3);
    assert_eq!(m.gems_spent_total(), 500 + 500 + 750);
    assert_eq!(m.gold_spent_total(), 5000 - 1250 + 10000 - 5000);
    assert_eq!(m.rares_owned(), 0);
    assert_eq!(m.rares_needed(), 4);
}

#[test]
fn the_summary_headings_name_the_set_in_capitals() {
    let h = summary_headings("woe");
    assert_eq!(h.rares, "WOE RARES");
    assert_eq!(h.mythics, "WOE MYTHICS");
    assert_eq!(h.stats, "WOE STATS");
    assert_eq!(h.packs_owned, "WOE Packs Owned (P):");
    assert_eq!(h.rares_owned, "WOE Rares Owned (R):");
    assert_eq!(h.mythics_owned, "WOE Mythics Owned (M):");
}
