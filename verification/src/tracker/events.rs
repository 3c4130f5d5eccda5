//! The events of the log. The main event types are `AccountInfoResult`,
//! `InventoryUpdateResult` and `CollectionResult`, appearing as the main JSON objects in the log
//! file. Every main event type has a timestamp and an attachment, describing when the event
//! occured and containing the detailed event object.

use vstd::prelude::*;
use crate::text::{chars_of, copy_str, decimal, decimal_string, ends_with, str_equal};
use crate::tracker::collations::{collation_name, collation_short_name};
use crate::tracker::dates::{friendly_time, friendly_time_text, NaiveDateTimeValue};
use crate::tracker::model::Guid;

verus! {

/// The fields every parse result shares: the prefix of its log part, the text it was read
/// from, and its date.
pub trait ParseResult {
    spec fn prefix_view(&self) -> Seq<char>;

    spec fn content_view(&self) -> Seq<char>;

    spec fn date_view(&self) -> Option<NaiveDateTimeValue>;

    /// The prefix of the log part the result was read from.
    fn get_prefix(&self) -> (r: &str)
        ensures
            r@ == self.prefix_view(),
    ;

    /// The text the result was read from.
    fn get_content(&self) -> (r: &str)
        ensures
            r@ == self.content_view(),
    ;

    /// The date of the result, if known.
    fn get_date(&self) -> (r: &Option<NaiveDateTimeValue>)
        ensures
            *r == self.date_view(),
    ;

    /// Sets the prefix, the text and the date.
    fn set_common_fields(&mut self, prefix: String, content: String, date: Option<NaiveDateTimeValue>)
        ensures
            final(self).prefix_view() == prefix@,
            final(self).content_view() == content@,
            final(self).date_view() == date,
    ;
}

/// A card and how many copies the player has.
#[derive(Debug)]
pub struct CollectedCard {
    pub grp_id: u32,
    pub count: u32,
}

/// The player's collection.
#[derive(Debug)]
pub struct CollectionResult {
    pub timestamp: String,
    pub attachment: Vec<CollectedCard>,
    pub prefix: String,
    pub date: Option<NaiveDateTimeValue>,
    pub content: String,
}

impl CollectionResult {
    /// The event's RFC 3339 timestamp.
    pub fn timestamp_str(&self) -> (r: &str)
        ensures
            r@ == self.timestamp@,
    {
        self.timestamp.as_str()
    }

    /// The event's time as shown to the user.
    pub fn friendly_time(&self) -> (r: String)
        ensures
            r@ == friendly_time_text(self.timestamp@),
    {
        friendly_time(self.timestamp.as_str())
    }

    /// The cards of the collection.
    pub fn payload(&self) -> (r: &Vec<CollectedCard>)
        ensures
            *r == self.attachment,
    {
        &self.attachment
    }
}

impl ParseResult for CollectionResult {
    open spec fn prefix_view(&self) -> Seq<char> {
        self.prefix@
    }

    open spec fn content_view(&self) -> Seq<char> {
        self.content@
    }

    open spec fn date_view(&self) -> Option<NaiveDateTimeValue> {
        self.date
    }

    fn get_prefix(&self) -> (r: &str) {
        self.prefix.as_str()
    }

    fn get_content(&self) -> (r: &str) {
        self.content.as_str()
    }

    fn get_date(&self) -> (r: &Option<NaiveDateTimeValue>) {
        &self.date
    }

    fn set_common_fields(&mut self, prefix: String, content: String, date: Option<NaiveDateTimeValue>)
        ensures
            final(self).timestamp == old(self).timestamp,
            final(self).attachment == old(self).attachment,
    {
        self.prefix = prefix;
        self.date = date;
        self.content = content;
    }
}

/// A floating-point number of the client's JSON, held by its IEEE 754 bits so that it can be
/// hashed.
#[derive(Debug, Clone, Copy)]
pub struct HashableF64 {
    pub bits: u64,
}

/// The significand of an `f64` with these bits, the implicit leading bit made explicit
/// (subnormal significands are doubled).
pub open spec fn decoded_mantissa(bits: u64) -> u64 {
    if (bits >> 52u64) & 0x7ffu64 == 0 {
        (bits & 0xfffffffffffffu64) << 1u64
    } else {
        (bits & 0xfffffffffffffu64) | 0x10000000000000u64
    }
}

/// The exponent of an `f64` with these bits, such that the value is the significand times two
/// to this power.
pub open spec fn decoded_exponent(bits: u64) -> int {
    ((bits >> 52u64) & 0x7ffu64) as int - 1075
}

/// The sign of an `f64` with these bits.
pub open spec fn decoded_sign(bits: u64) -> int {
    if bits >> 63u64 == 0 {
        1
    } else {
        -1
    }
}

/// Splits the bits of an `f64` into significand, exponent and sign: the value the hash of a
/// `HashableF64` is taken of.
pub fn integer_decode(bits: u64) -> (r: (u64, i16, i8))
    ensures
        r.0 == decoded_mantissa(bits),
        r.1 == decoded_exponent(bits),
        r.2 == decoded_sign(bits),
{
    let sign: i8 = if bits >> 63u64 == 0 {
        1
    } else {
        -1
    };
    let biased: u64 = (bits >> 52u64) & 0x7ffu64;
    assert((bits >> 52u64) & 0x7ffu64 <= 0x7ffu64) by (bit_vector);
    let mut exponent: i16 = biased as i16;
    let mantissa: u64 = if exponent == 0 {
        (bits & 0xfffffffffffffu64) << 1u64
    } else {
        (bits & 0xfffffffffffffu64) | 0x10000000000000u64
    };
    exponent = exponent - (1023 + 52);
    (mantissa, exponent, sign)
}

/// Distinct bits decode differently: the hash of a `HashableF64` tells apart every two
/// different bit patterns.
pub proof fn lemma_integer_decode_injective(a: u64, b: u64)
    requires
        decoded_mantissa(a) == decoded_mantissa(b),
        decoded_exponent(a) == decoded_exponent(b),
        decoded_sign(a) == decoded_sign(b),
    ensures
        a == b,
{
    let ea = (a >> 52u64) & 0x7ffu64;
    let eb = (b >> 52u64) & 0x7ffu64;
    assert(ea == eb);
    let ma = decoded_mantissa(a);
    let mb = decoded_mantissa(b);
    assert(a >> 63u64 == b >> 63u64) by (bit_vector)
        requires
            (a >> 63u64 == 0) == (b >> 63u64 == 0),
    ;
    if ea == 0 {
        assert((a & 0xfffffffffffffu64) == (b & 0xfffffffffffffu64)) by (bit_vector)
            requires
                (a & 0xfffffffffffffu64) << 1u64 == (b & 0xfffffffffffffu64) << 1u64,
        ;
    } else {
        assert((a & 0xfffffffffffffu64) == (b & 0xfffffffffffffu64)) by (bit_vector)
            requires
                (a & 0xfffffffffffffu64) | 0x10000000000000u64 == (b & 0xfffffffffffffu64)
                    | 0x10000000000000u64,
        ;
    }
    assert(a == b) by (bit_vector)
        requires
            a >> 63u64 == b >> 63u64,
            (a >> 52u64) & 0x7ffu64 == (b >> 52u64) & 0x7ffu64,
            (a & 0xfffffffffffffu64) == (b & 0xfffffffffffffu64),
    ;
}

/// A stack of booster packs of one collation.
#[derive(Debug, Clone, Copy)]
pub struct BoosterStack {
    pub collation_id: i32,
    pub count: i32,
}

impl BoosterStack {
    /// The short name of the stack's collation.
    pub fn short_name(&self) -> (r: String)
        ensures
            r@ == collation_short_name(self.collation_id),
    {
        String::from_str(collation_name(self.collation_id))
    }
}

/// A voucher of the player's inventory.
#[derive(Debug)]
pub struct ClientVoucherDescription {
    pub image1: String,
    pub image2: String,
    pub image3: String,
    pub prefab: String,
    pub reference_id: String,
    pub header_loc_key: String,
    pub description_loc_key: String,
    pub quantity: String,
    pub loc_params: Option<Vec<(String, i32)>>,
    pub available_date: String,
}

/// Tickets added to or removed from the inventory.
#[derive(Debug)]
pub struct TicketStack {
    pub ticket: String,
    pub count: i32,
}

/// What the player has in their inventory: wildcards, booster packs, draft tokens etc.
#[derive(Debug)]
pub struct PlayerInventoryData {
    pub wc_common: u32,
    pub wc_uncommon: u32,
    pub wc_rare: u32,
    pub wc_mythic: u32,
    pub gold: u32,
    pub gems: u32,
    pub wc_track_position: i32,
    pub vault_progress: HashableF64,
    pub boosters: Vec<BoosterStack>,
    pub vouchers: Vec<ClientVoucherDescription>,
    pub basic_land_set: Option<String>,
    pub latest_basic_land_set: Option<String>,
    pub starter_decks: Option<Vec<Guid>>,
    pub tickets: Option<Vec<TicketStack>>,
    pub custom_tokens: Option<Vec<(String, u32)>>,
}

/// The player's inventory.
#[derive(Debug)]
pub struct InventoryResult {
    pub timestamp: String,
    pub attachment: PlayerInventoryData,
    pub prefix: String,
    pub date: Option<NaiveDateTimeValue>,
    pub content: String,
}

impl InventoryResult {
    /// The event's RFC 3339 timestamp.
    pub fn timestamp_str(&self) -> (r: &str)
        ensures
            r@ == self.timestamp@,
    {
        self.timestamp.as_str()
    }

    /// The event's time as shown to the user.
    pub fn friendly_time(&self) -> (r: String)
        ensures
            r@ == friendly_time_text(self.timestamp@),
    {
        friendly_time(self.timestamp.as_str())
    }

    /// The inventory.
    pub fn payload(&self) -> (r: &PlayerInventoryData)
        ensures
            *r == self.attachment,
    {
        &self.attachment
    }
}

impl ParseResult for InventoryResult {
    open spec fn prefix_view(&self) -> Seq<char> {
        self.prefix@
    }

    open spec fn content_view(&self) -> Seq<char> {
        self.content@
    }

    open spec fn date_view(&self) -> Option<NaiveDateTimeValue> {
        self.date
    }

    fn get_prefix(&self) -> (r: &str) {
        self.prefix.as_str()
    }

    fn get_content(&self) -> (r: &str) {
        self.content.as_str()
    }

    fn get_date(&self) -> (r: &Option<NaiveDateTimeValue>) {
        &self.date
    }

    fn set_common_fields(&mut self, prefix: String, content: String, date: Option<NaiveDateTimeValue>)
        ensures
            final(self).timestamp == old(self).timestamp,
            final(self).attachment == old(self).attachment,
    {
        self.prefix = prefix;
        self.date = date;
        self.content = content;
    }
}

/// A card skin added to or removed from the inventory.
#[derive(Debug)]
pub struct ArtSkin {
    pub art_id: u32,
    pub ccv: String,
}

impl ArtSkin {
    /// The skin as the log view shows it: `ccv - art id`.
    pub fn logview_name(&self) -> (r: String)
        ensures
            r@ == self.ccv@ + " - "@ + decimal(self.art_id as nat),
    {
        let mut s = copy_str(self.ccv.as_str());
        s.append(" - ");
        let digits = decimal_string(self.art_id as u64);
        s.append(digits.as_str());
        s
    }
}

/// A voucher added to or removed from the inventory.
#[derive(Debug)]
pub struct VoucherStack {
    pub id: Guid,
    pub count: i32,
}

/// A change of one of the special tokens of the client (mastery orbs, draft tokens...).
#[derive(Debug)]
pub struct CustomTokenDeltaInfo {
    pub id: String,
    pub delta: i32,
}

/// Whether a token id is the draft token's.
pub open spec fn is_draft_token_id(id: Seq<char>) -> bool {
    id == "DraftToken"@
}

/// Whether a token id is a mastery orb's.
pub open spec fn is_orb_token_id(id: Seq<char>) -> bool {
    "_Orb"@.is_suffix_of(id)
}

impl CustomTokenDeltaInfo {
    /// Whether the token is a draft token.
    pub fn is_draft_token(&self) -> (r: bool)
        ensures
            r == is_draft_token_id(self.id@),
    {
        str_equal(self.id.as_str(), "DraftToken")
    }

    /// Whether the token is a mastery orb.
    pub fn is_orb_token(&self) -> (r: bool)
        ensures
            r == is_orb_token_id(self.id@),
    {
        let id = chars_of(self.id.as_str());
        let suffix = chars_of("_Orb");
        ends_with(id.as_slice(), suffix.as_slice())
    }
}

/// The changes of the player's inventory.
#[derive(Debug)]
pub struct InventoryDelta {
    pub gems_delta: i32,
    pub gold_delta: i32,
    pub booster_delta: Vec<BoosterStack>,
    pub cards_added: Vec<u32>,
    pub decks_added: Vec<Guid>,
    pub starter_decks_added: Option<Vec<Guid>>,
    pub vanity_items_added: Vec<String>,
    pub vanity_items_removed: Option<Vec<String>>,
    pub vault_progress_delta: HashableF64,
    pub wc_track_position: i32,
    pub wc_common_delta: i32,
    pub wc_uncommon_delta: i32,
    pub wc_rare_delta: i32,
    pub wc_mythic_delta: i32,
    pub art_skins_added: Vec<ArtSkin>,
    pub art_skins_removed: Option<Vec<ArtSkin>>,
    pub tickets: Option<Vec<TicketStack>>,
    pub custom_token_delta: Vec<CustomTokenDeltaInfo>,
    pub voucher_items_delta: Option<Vec<VoucherStack>>,
}

/// A card awarded in an inventory update.
#[derive(Debug)]
pub struct AetherizedCardInformation {
    pub grp_id: u32,
    pub added_to_inventory: bool,
    pub is_granted_from_deck: bool,
    pub vault_progress: HashableF64,
    pub gold_awarded: i32,
    pub gems_awarded: i32,
    /// `None` for wildcards opened in boosters.
    pub set: Option<String>,
}

/// The ids under which the client awards wildcards.
pub const COMMON_WILDCARD_GRPID: u32 = 9;
pub const UNCOMMON_WILDCARD_GRPID: u32 = 8;
pub const RARE_WILDCARD_GRPID: u32 = 7;
pub const MYTHICRARE_WILDCARD_GRPID: u32 = 6;

/// Whether an awarded id is a card rather than a wildcard.
pub open spec fn is_actual_card_id(grp_id: u32) -> bool {
    grp_id != COMMON_WILDCARD_GRPID && grp_id != UNCOMMON_WILDCARD_GRPID && grp_id
        != RARE_WILDCARD_GRPID && grp_id != MYTHICRARE_WILDCARD_GRPID
}

impl AetherizedCardInformation {
    /// Whether the award is a card rather than a wildcard.
    pub fn is_actual_card(&self) -> (r: bool)
        ensures
            r == is_actual_card_id(self.grp_id),
    {
        self.grp_id != COMMON_WILDCARD_GRPID && self.grp_id != UNCOMMON_WILDCARD_GRPID
            && self.grp_id != RARE_WILDCARD_GRPID && self.grp_id != MYTHICRARE_WILDCARD_GRPID
    }
}

/// What triggered an inventory update (`Wizards.Models.InventoryUpdateSource`).
#[derive(Debug)]
pub struct InventoryUpdateContext {
    pub source: String,
    pub source_id: Option<String>,
}

/// An update of the player's inventory, eg. when a match ends.
#[derive(Debug)]
pub struct InventoryUpdateData {
    pub delta: InventoryDelta,
    pub aetherized_cards: Vec<AetherizedCardInformation>,
    pub xp_gained: i32,
    pub context: InventoryUpdateContext,
    pub parent_context: Option<String>,
}

/// The sum of the deltas of the first `n` tokens that `kind` selects.
pub open spec fn token_sum(tokens: Seq<CustomTokenDeltaInfo>, n: int, kind: spec_fn(Seq<char>) -> bool) -> int
    decreases n,
{
    if n <= 0 {
        0
    } else {
        token_sum(tokens, n - 1, kind) + if kind(tokens[n - 1].id@) {
            tokens[n - 1].delta as int
        } else {
            0
        }
    }
}

/// Whether a token that `kind` selects is among the tokens.
pub open spec fn has_token(tokens: Seq<CustomTokenDeltaInfo>, kind: spec_fn(Seq<char>) -> bool) -> bool {
    exists|i: int| 0 <= i < tokens.len() && kind(#[trigger] tokens[i].id@)
}

/// The running sums of the deltas stay within `i32`.
pub open spec fn token_sums_fit(tokens: Seq<CustomTokenDeltaInfo>, kind: spec_fn(Seq<char>) -> bool) -> bool {
    forall|n: int| 0 <= n <= tokens.len() ==> i32::MIN <= #[trigger] token_sum(tokens, n, kind) <= i32::MAX
}

/// The delta of the tokens that `kind` selects: `None` when there is none of them.
pub open spec fn token_delta(tokens: Seq<CustomTokenDeltaInfo>, kind: spec_fn(Seq<char>) -> bool) -> Option<i32> {
    if has_token(tokens, kind) {
        Some(token_sum(tokens, tokens.len() as int, kind) as i32)
    } else {
        None
    }
}

pub open spec fn draft_kind() -> spec_fn(Seq<char>) -> bool {
    |id: Seq<char>| is_draft_token_id(id)
}

pub open spec fn orb_kind() -> spec_fn(Seq<char>) -> bool {
    |id: Seq<char>| is_orb_token_id(id)
}

/// The ids of the cards (not wildcards) that were added to the inventory, in order.
pub open spec fn added_cards(cards: Seq<AetherizedCardInformation>) -> Seq<u32>
    decreases cards.len(),
{
    if cards.len() == 0 {
        Seq::empty()
    } else {
        let rest = added_cards(cards.drop_last());
        let c = cards.last();
        if c.added_to_inventory && is_actual_card_id(c.grp_id) {
            rest.push(c.grp_id)
        } else {
            rest
        }
    }
}

/// An inventory update event.
#[derive(Debug)]
pub struct InventoryUpdateResult {
    pub timestamp: String,
    pub source: String,
    pub attachment: InventoryUpdateData,
    pub prefix: String,
    pub date: Option<NaiveDateTimeValue>,
    pub content: String,
}

impl InventoryUpdateResult {
    /// The event's time as shown to the user.
    pub fn friendly_time(&self) -> (r: String)
        ensures
            r@ == friendly_time_text(self.timestamp@),
    {
        friendly_time(self.timestamp.as_str())
    }

    /// The event's RFC 3339 timestamp.
    pub fn timestamp_str(&self) -> (r: &str)
        ensures
            r@ == self.timestamp@,
    {
        self.timestamp.as_str()
    }

    /// The source of the update event.
    pub fn update_source(&self) -> (r: &str)
        ensures
            r@ == self.source@,
    {
        self.source.as_str()
    }

    /// What triggered the update.
    pub fn source_context(&self) -> (r: &str)
        ensures
            r@ == self.attachment.context.source@,
    {
        self.attachment.context.source.as_str()
    }

    /// The update.
    pub fn payload(&self) -> (r: &InventoryUpdateData)
        ensures
            *r == self.attachment,
    {
        &self.attachment
    }

    /// The change of mythic wildcards.
    pub fn mythic_wildcard_delta(&self) -> (r: i32)
        ensures
            r == self.attachment.delta.wc_mythic_delta,
    {
        self.attachment.delta.wc_mythic_delta
    }

    /// The change of rare wildcards.
    pub fn rare_wildcard_delta(&self) -> (r: i32)
        ensures
            r == self.attachment.delta.wc_rare_delta,
    {
        self.attachment.delta.wc_rare_delta
    }

    /// The change of uncommon wildcards.
    pub fn uncommon_wildcard_delta(&self) -> (r: i32)
        ensures
            r == self.attachment.delta.wc_uncommon_delta,
    {
        self.attachment.delta.wc_uncommon_delta
    }

    /// The change of common wildcards.
    pub fn common_wildcard_delta(&self) -> (r: i32)
        ensures
            r == self.attachment.delta.wc_common_delta,
    {
        self.attachment.delta.wc_common_delta
    }

    /// The experience gained.
    pub fn xp_gained(&self) -> (r: i32)
        ensures
            r == self.attachment.xp_gained,
    {
        self.attachment.xp_gained
    }

    /// The change of gems.
    pub fn gems_delta(&self) -> (r: i32)
        ensures
            r == self.attachment.delta.gems_delta,
    {
        self.attachment.delta.gems_delta
    }

    /// The change of gold.
    pub fn gold_delta(&self) -> (r: i32)
        ensures
            r == self.attachment.delta.gold_delta,
    {
        self.attachment.delta.gold_delta
    }

    /// The change of draft tokens: the sum of the deltas of the draft tokens, `None` when no
    /// draft token changed.
    pub fn draft_token_delta(&self) -> (r: Option<i32>)
        requires
            token_sums_fit(self.attachment.delta.custom_token_delta@, draft_kind()),
        ensures
            r == token_delta(self.attachment.delta.custom_token_delta@, draft_kind()),
    {
        let tokens = &self.attachment.delta.custom_token_delta;
        let ghost kind = draft_kind();
        let mut any = false;
        let mut sum: i32 = 0;
        let mut i: usize = 0;
        while i < tokens.len()
            invariant
                i <= tokens@.len(),
                kind == draft_kind(),
                token_sums_fit(tokens@, kind),
                sum == token_sum(tokens@, i as int, kind),
                any == exists|j: int| 0 <= j < i && kind(#[trigger] tokens@[j].id@),
            decreases tokens.len() - i,
        {
            if tokens[i].is_draft_token() {
                any = true;
                assert(i32::MIN <= token_sum(tokens@, i + 1, kind) <= i32::MAX);
                sum = sum + tokens[i].delta;
            }
            i = i + 1;
        }
        if any {
            Some(sum)
        } else {
            None
        }
    }

    /// The change of mastery orbs: the sum of the deltas of the orb tokens, `None` when no orb
    /// changed.
    pub fn orbs_delta(&self) -> (r: Option<i32>)
        requires
            token_sums_fit(self.attachment.delta.custom_token_delta@, orb_kind()),
        ensures
            r == token_delta(self.attachment.delta.custom_token_delta@, orb_kind()),
    {
        let tokens = &self.attachment.delta.custom_token_delta;
        let ghost kind = orb_kind();
        let mut any = false;
        let mut sum: i32 = 0;
        let mut i: usize = 0;
        while i < tokens.len()
            invariant
                i <= tokens@.len(),
                kind == orb_kind(),
                token_sums_fit(tokens@, kind),
                sum == token_sum(tokens@, i as int, kind),
                any == exists|j: int| 0 <= j < i && kind(#[trigger] tokens@[j].id@),
            decreases tokens.len() - i,
        {
            if tokens[i].is_orb_token() {
                any = true;
                assert(i32::MIN <= token_sum(tokens@, i + 1, kind) <= i32::MAX);
                sum = sum + tokens[i].delta;
            }
            i = i + 1;
        }
        if any {
            Some(sum)
        } else {
            None
        }
    }

    /// The ids of the cards (not wildcards) added to the inventory, in order.
    pub fn cards_added(&self) -> (r: Vec<u32>)
        ensures
            r@ == added_cards(self.attachment.aetherized_cards@),
    {
        let cards = &self.attachment.aetherized_cards;
        let mut r: Vec<u32> = Vec::new();
        let mut i: usize = 0;
        while i < cards.len()
            invariant
                i <= cards@.len(),
                r@ == added_cards(cards@.take(i as int)),
            decreases cards.len() - i,
        {
            proof {
                assert(cards@.take(i + 1).drop_last() =~= cards@.take(i as int));
            }
            if cards[i].added_to_inventory && cards[i].is_actual_card() {
                r.push(cards[i].grp_id);
            }
            i = i + 1;
        }
        assert(cards@.take(i as int) =~= cards@);
        r
    }

    /// The tickets added or removed.
    pub fn tickets(&self) -> (r: Option<&Vec<TicketStack>>)
        ensures
            r == match &self.attachment.delta.tickets {
                Some(t) => Some(t),
                None => None::<&Vec<TicketStack>>,
            },
    {
        match &self.attachment.delta.tickets {
            Some(t) => Some(t),
            None => None,
        }
    }

    /// The booster packs added or removed, `None` when there are none.
    pub fn packs_delta(&self) -> (r: Option<&Vec<BoosterStack>>)
        ensures
            self.attachment.delta.booster_delta@.len() == 0 ==> r is None,
            self.attachment.delta.booster_delta@.len() != 0 ==> r == Some(
                &self.attachment.delta.booster_delta,
            ),
    {
        if self.attachment.delta.booster_delta.len() == 0 {
            None
        } else {
            Some(&self.attachment.delta.booster_delta)
        }
    }

    /// The card skins added, `None` when there are none.
    pub fn art_skins_added(&self) -> (r: Option<&Vec<ArtSkin>>)
        ensures
            self.attachment.delta.art_skins_added@.len() == 0 ==> r is None,
            self.attachment.delta.art_skins_added@.len() != 0 ==> r == Some(
                &self.attachment.delta.art_skins_added,
            ),
    {
        if self.attachment.delta.art_skins_added.len() == 0 {
            None
        } else {
            Some(&self.attachment.delta.art_skins_added)
        }
    }

    /// The card skins removed.
    pub fn art_skins_removed(&self) -> (r: Option<&Vec<ArtSkin>>)
        ensures
            r == match &self.attachment.delta.art_skins_removed {
                Some(t) => Some(t),
                None => None::<&Vec<ArtSkin>>,
            },
    {
        match &self.attachment.delta.art_skins_removed {
            Some(t) => Some(t),
            None => None,
        }
    }

    /// The vanity items added, `None` when there are none.
    pub fn vanity_items_added(&self) -> (r: Option<&Vec<String>>)
        ensures
            self.attachment.delta.vanity_items_added@.len() == 0 ==> r is None,
            self.attachment.delta.vanity_items_added@.len() != 0 ==> r == Some(
                &self.attachment.delta.vanity_items_added,
            ),
    {
        if self.attachment.delta.vanity_items_added.len() == 0 {
            None
        } else {
            Some(&self.attachment.delta.vanity_items_added)
        }
    }

    /// The vanity items removed.
    pub fn vanity_items_removed(&self) -> (r: Option<&Vec<String>>)
        ensures
            r == match &self.attachment.delta.vanity_items_removed {
                Some(t) => Some(t),
                None => None::<&Vec<String>>,
            },
    {
        match &self.attachment.delta.vanity_items_removed {
            Some(t) => Some(t),
            None => None,
        }
    }
}

impl ParseResult for InventoryUpdateResult {
    open spec fn prefix_view(&self) -> Seq<char> {
        self.prefix@
    }

    open spec fn content_view(&self) -> Seq<char> {
        self.content@
    }

    open spec fn date_view(&self) -> Option<NaiveDateTimeValue> {
        self.date
    }

    fn get_prefix(&self) -> (r: &str) {
        self.prefix.as_str()
    }

    fn get_content(&self) -> (r: &str) {
        self.content.as_str()
    }

    fn get_date(&self) -> (r: &Option<NaiveDateTimeValue>) {
        &self.date
    }

    fn set_common_fields(&mut self, prefix: String, content: String, date: Option<NaiveDateTimeValue>)
        ensures
            final(self).timestamp == old(self).timestamp,
            final(self).source == old(self).source,
            final(self).attachment == old(self).attachment,
    {
        self.prefix = prefix;
        self.date = date;
        self.content = content;
    }
}

/// The logged-in account.
#[derive(Debug)]
pub struct AccountInfoData {
    pub user_id: String,
    pub screen_name: String,
}

/// The account the client logged in with.
#[derive(Debug)]
pub struct AccountInfoResult {
    pub timestamp: String,
    pub attachment: AccountInfoData,
    pub prefix: String,
    pub date: Option<NaiveDateTimeValue>,
    pub content: String,
}

impl AccountInfoResult {
    /// The event's RFC 3339 timestamp.
    pub fn timestamp_str(&self) -> (r: &str)
        ensures
            r@ == self.timestamp@,
    {
        self.timestamp.as_str()
    }

    /// The player's screen name.
    pub fn screen_name(&self) -> (r: &str)
        ensures
            r@ == self.attachment.screen_name@,
    {
        self.attachment.screen_name.as_str()
    }

    /// The player's id in the client.
    pub fn user_id(&self) -> (r: &str)
        ensures
            r@ == self.attachment.user_id@,
    {
        self.attachment.user_id.as_str()
    }
}

impl ParseResult for AccountInfoResult {
    open spec fn prefix_view(&self) -> Seq<char> {
        self.prefix@
    }

    open spec fn content_view(&self) -> Seq<char> {
        self.content@
    }

    open spec fn date_view(&self) -> Option<NaiveDateTimeValue> {
        self.date
    }

    fn get_prefix(&self) -> (r: &str) {
        self.prefix.as_str()
    }

    fn get_content(&self) -> (r: &str) {
        self.content.as_str()
    }

    fn get_date(&self) -> (r: &Option<NaiveDateTimeValue>) {
        &self.date
    }

    fn set_common_fields(&mut self, prefix: String, content: String, date: Option<NaiveDateTimeValue>)
        ensures
            final(self).timestamp == old(self).timestamp,
            final(self).attachment == old(self).attachment,
    {
        self.prefix = prefix;
        self.date = date;
        self.content = content;
    }
}

/// A part of the log that no parser recognizes.
#[derive(Debug)]
pub struct UnknownResult {
    pub prefix: String,
    pub content: String,
    pub date: Option<NaiveDateTimeValue>,
}

impl UnknownResult {
    /// An unrecognized part with its prefix, date and text.
    pub fn new(prefix: String, date: Option<NaiveDateTimeValue>, content: String) -> (r: UnknownResult)
        ensures
            r.prefix == prefix,
            r.date == date,
            r.content == content,
    {
        UnknownResult { prefix, content, date }
    }
}

impl ParseResult for UnknownResult {
    open spec fn prefix_view(&self) -> Seq<char> {
        self.prefix@
    }

    open spec fn content_view(&self) -> Seq<char> {
        self.content@
    }

    open spec fn date_view(&self) -> Option<NaiveDateTimeValue> {
        self.date
    }

    fn get_prefix(&self) -> (r: &str) {
        self.prefix.as_str()
    }

    fn get_content(&self) -> (r: &str) {
        self.content.as_str()
    }

    fn get_date(&self) -> (r: &Option<NaiveDateTimeValue>) {
        &self.date
    }

    fn set_common_fields(&mut self, prefix: String, content: String, date: Option<NaiveDateTimeValue>) {
        self.prefix = prefix;
        self.content = content;
        self.date = date;
    }
}

/// The client moved from one scene to another.
#[derive(Debug)]
pub struct SceneChangeResult {
    pub from_scene_name: String,
    pub to_scene_name: String,
    pub initiator: String,
    pub context: Option<String>,
    pub prefix: String,
    pub date: Option<NaiveDateTimeValue>,
    pub content: String,
}

impl SceneChangeResult {
    /// The scene left.
    pub fn from_scene(&self) -> (r: &str)
        ensures
            r@ == self.from_scene_name@,
    {
        self.from_scene_name.as_str()
    }

    /// The scene entered.
    pub fn to_scene(&self) -> (r: &str)
        ensures
            r@ == self.to_scene_name@,
    {
        self.to_scene_name.as_str()
    }

    /// What initiated the change.
    pub fn initiator(&self) -> (r: &str)
        ensures
            r@ == self.initiator@,
    {
        self.initiator.as_str()
    }

    /// The context of the change, if any.
    pub fn context(&self) -> (r: Option<&str>)
        ensures
            match self.context {
                Some(c) => r matches Some(t) && t@ == c@,
                None => r is None,
            },
    {
        match &self.context {
            Some(c) => Some(c.as_str()),
            None => None,
        }
    }
}

impl ParseResult for SceneChangeResult {
    open spec fn prefix_view(&self) -> Seq<char> {
        self.prefix@
    }

    open spec fn content_view(&self) -> Seq<char> {
        self.content@
    }

    open spec fn date_view(&self) -> Option<NaiveDateTimeValue> {
        self.date
    }

    fn get_prefix(&self) -> (r: &str) {
        self.prefix.as_str()
    }

    fn get_content(&self) -> (r: &str) {
        self.content.as_str()
    }

    fn get_date(&self) -> (r: &Option<NaiveDateTimeValue>) {
        &self.date
    }

    fn set_common_fields(&mut self, prefix: String, content: String, date: Option<NaiveDateTimeValue>)
        ensures
            final(self).from_scene_name == old(self).from_scene_name,
            final(self).to_scene_name == old(self).to_scene_name,
            final(self).initiator == old(self).initiator,
            final(self).context == old(self).context,
    {
        self.prefix = prefix;
        self.date = date;
        self.content = content;
    }
}

/// Any result of parsing a part of the log.
#[derive(Debug)]
pub enum ParseResults {
    UnknownResult(UnknownResult),
    SceneChangeResult(SceneChangeResult),
    AccountInfoResult(AccountInfoResult),
    InventoryUpdateResult(InventoryUpdateResult),
    InventoryResult(InventoryResult),
    CollectionResult(CollectionResult),
}

impl ParseResult for ParseResults {
    open spec fn prefix_view(&self) -> Seq<char> {
        match self {
            ParseResults::UnknownResult(r) => r.prefix_view(),
            ParseResults::SceneChangeResult(r) => r.prefix_view(),
            ParseResults::AccountInfoResult(r) => r.prefix_view(),
            ParseResults::InventoryUpdateResult(r) => r.prefix_view(),
            ParseResults::InventoryResult(r) => r.prefix_view(),
            ParseResults::CollectionResult(r) => r.prefix_view(),
        }
    }

    open spec fn content_view(&self) -> Seq<char> {
        match self {
            ParseResults::UnknownResult(r) => r.content_view(),
            ParseResults::SceneChangeResult(r) => r.content_view(),
            ParseResults::AccountInfoResult(r) => r.content_view(),
            ParseResults::InventoryUpdateResult(r) => r.content_view(),
            ParseResults::InventoryResult(r) => r.content_view(),
            ParseResults::CollectionResult(r) => r.content_view(),
        }
    }

    open spec fn date_view(&self) -> Option<NaiveDateTimeValue> {
        match self {
            ParseResults::UnknownResult(r) => r.date_view(),
            ParseResults::SceneChangeResult(r) => r.date_view(),
            ParseResults::AccountInfoResult(r) => r.date_view(),
            ParseResults::InventoryUpdateResult(r) => r.date_view(),
            ParseResults::InventoryResult(r) => r.date_view(),
            ParseResults::CollectionResult(r) => r.date_view(),
        }
    }

    fn get_prefix(&self) -> (r: &str) {
        match self {
            ParseResults::UnknownResult(r) => r.get_prefix(),
            ParseResults::SceneChangeResult(r) => r.get_prefix(),
            ParseResults::AccountInfoResult(r) => r.get_prefix(),
            ParseResults::InventoryUpdateResult(r) => r.get_prefix(),
            ParseResults::InventoryResult(r) => r.get_prefix(),
            ParseResults::CollectionResult(r) => r.get_prefix(),
        }
    }

    fn get_content(&self) -> (r: &str) {
        match self {
            ParseResults::UnknownResult(r) => r.get_content(),
            ParseResults::SceneChangeResult(r) => r.get_content(),
            ParseResults::AccountInfoResult(r) => r.get_content(),
            ParseResults::InventoryUpdateResult(r) => r.get_content(),
            ParseResults::InventoryResult(r) => r.get_content(),
            ParseResults::CollectionResult(r) => r.get_content(),
        }
    }

    fn get_date(&self) -> (r: &Option<NaiveDateTimeValue>) {
        match self {
            ParseResults::UnknownResult(r) => r.get_date(),
            ParseResults::SceneChangeResult(r) => r.get_date(),
            ParseResults::AccountInfoResult(r) => r.get_date(),
            ParseResults::InventoryUpdateResult(r) => r.get_date(),
            ParseResults::InventoryResult(r) => r.get_date(),
            ParseResults::CollectionResult(r) => r.get_date(),
        }
    }

    fn set_common_fields(&mut self, prefix: String, content: String, date: Option<NaiveDateTimeValue>) {
        match self {
            ParseResults::UnknownResult(r) => r.set_common_fields(prefix, content, date),
            ParseResults::SceneChangeResult(r) => r.set_common_fields(prefix, content, date),
            ParseResults::AccountInfoResult(r) => r.set_common_fields(prefix, content, date),
            ParseResults::InventoryUpdateResult(r) => r.set_common_fields(prefix, content, date),
            ParseResults::InventoryResult(r) => r.set_common_fields(prefix, content, date),
            ParseResults::CollectionResult(r) => r.set_common_fields(prefix, content, date),
        }
    }
}

} // verus!
