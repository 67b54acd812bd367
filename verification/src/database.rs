//! The watchlist store as the dispatcher sees it: which tables hold what, how a stored
//! item reads as a watchlist entry, and what setting a threshold asks of the store.

use crate::models::WatchlistItem;
use crate::text::{parse_amount, parsed_amount};
use vstd::prelude::*;
use vstd::string::*;

verus! {

/// One attribute of a stored item.
#[derive(Debug, Clone)]
pub enum Attribute {
    Text(String),
    /// A number in its decimal text form.
    Number(String),
    /// Any other kind of attribute.
    Other,
}

/// The attributes of a stored item that a watchlist entry is read from.
#[derive(Debug, Clone)]
pub struct StoredItem {
    pub user_id: Option<Attribute>,
    pub symbol: Option<Attribute>,
    pub added_at: Option<Attribute>,
    pub alert_threshold: Option<Attribute>,
}

/// Why a stored item could not be read.
#[derive(Debug, Clone, Copy, PartialEq, Eq)]
pub enum StoreError {
    /// The item's `added_at` text is no RFC 3339 instant.
    InvalidTimestamp,
}

/// One write to the store.
#[derive(Debug, Clone, Copy, PartialEq, Eq)]
pub enum StoreWrite {
    /// Create the (user, symbol) entry, marked active.
    Put,
    /// Set the entry's alert threshold.
    UpdateThreshold,
}

/// Seconds since the Unix epoch of an RFC 3339 instant, as
/// `chrono::DateTime::parse_from_rfc3339` reads it; none where it rejects the text.
pub uninterp spec fn rfc3339_seconds(text: Seq<char>) -> Option<i64>;

/// `chrono::DateTime::parse_from_rfc3339` followed by `DateTime::timestamp`: the
/// instant that the text denotes, in whole seconds since the Unix epoch, or nothing
/// where the text is rejected. A function of the text alone.
#[verifier::external_body]
fn parse_rfc3339(text: &str) -> (res: Option<i64>)
    ensures
        res == rfc3339_seconds(text@),
{
    match chrono::DateTime::parse_from_rfc3339(text) {
        Ok(instant) => Some(instant.timestamp()),
        Err(_) => None,
    }
}

/// The text of a text attribute.
pub open spec fn text_attribute(attribute: Option<Attribute>) -> Option<Seq<char>> {
    match attribute {
        Some(Attribute::Text(t)) => Some(t@),
        _ => None,
    }
}

/// The instant an item was added, given what its `added_at` text parsed to: the
/// parsed instant for a text attribute, `now` for an item without one, and an error
/// for text that is no instant.
pub open spec fn added_at_of(added_at: Option<Attribute>, parsed: Option<i64>, now: i64) -> Result<
    i64,
    StoreError,
> {
    match added_at {
        Some(Attribute::Text(_)) => match parsed {
            Some(seconds) => Ok(seconds),
            None => Err(StoreError::InvalidTimestamp),
        },
        _ => Ok(now),
    }
}

/// The instant an item was added.
pub open spec fn item_added_at(item: StoredItem, now: i64) -> Result<i64, StoreError> {
    added_at_of(
        item.added_at,
        match text_attribute(item.added_at) {
            Some(t) => rfc3339_seconds(t),
            None => None,
        },
        now,
    )
}

/// The alert threshold of an item: the amount its number attribute denotes, none
/// where it has no number attribute or the number is no amount.
pub open spec fn item_threshold(item: StoredItem) -> Option<i64> {
    match item.alert_threshold {
        Some(Attribute::Number(n)) => match parsed_amount(n@) {
            Some(v) => Some(v as i64),
            None => None,
        },
        _ => None,
    }
}

/// Whether an item is a watchlist entry at all: it names a user and a symbol as text.
pub open spec fn is_entry(item: StoredItem) -> bool {
    text_attribute(item.user_id) is Some && text_attribute(item.symbol) is Some
}

/// `entry` is what `item` reads as.
pub open spec fn entry_of(entry: WatchlistItem, item: StoredItem, now: i64) -> bool {
    &&& Some(entry.user_id@) == text_attribute(item.user_id)
    &&& Some(entry.symbol@) == text_attribute(item.symbol)
    &&& Ok::<i64, StoreError>(entry.added_at) == item_added_at(item, now)
    &&& entry.alert_threshold == item_threshold(item)
}

/// Whether an item is an entry that cannot be read.
pub open spec fn is_unreadable(item: StoredItem, now: i64) -> bool {
    is_entry(item) && item_added_at(item, now) is Err
}

/// The positions below `n` of the items that are entries, in ascending order.
pub open spec fn entry_positions(items: Seq<StoredItem>, n: nat) -> Seq<int>
    decreases n,
{
    if n == 0 {
        Seq::empty()
    } else {
        let before = entry_positions(items, (n - 1) as nat);
        if is_entry(items[n - 1]) {
            before.push(n - 1)
        } else {
            before
        }
    }
}

/// `entries` is the watchlist read from `items`: one entry per item that is one, in order.
pub open spec fn is_watchlist(entries: Seq<WatchlistItem>, items: Seq<StoredItem>, now: i64) -> bool {
    let positions = entry_positions(items, items.len());
    &&& entries.len() == positions.len()
    &&& forall|k: int|
        0 <= k < entries.len() ==> entry_of(#[trigger] entries[k], items[positions[k]], now)
}

/// The writes that set a threshold: an entry that is not there yet is created before
/// the update.
pub open spec fn threshold_writes(entry_exists: bool) -> Seq<StoreWrite> {
    if entry_exists {
        seq![StoreWrite::UpdateThreshold]
    } else {
        seq![StoreWrite::Put, StoreWrite::UpdateThreshold]
    }
}

/// The instant an item was added, from what its `added_at` text parsed to.
pub fn resolve_added_at(added_at: &Option<Attribute>, parsed: Option<i64>, now: i64) -> (res:
    Result<i64, StoreError>)
    ensures
        res == added_at_of(*added_at, parsed, now),
{
    match added_at {
        Some(Attribute::Text(_)) => match parsed {
            Some(seconds) => Ok(seconds),
            None => Err(StoreError::InvalidTimestamp),
        },
        _ => Ok(now),
    }
}

/// Names of the tables and the rules for reading and writing watchlist entries.
#[derive(Debug, Clone)]
pub struct DynamoClient {
    pub stocks_table: String,
    pub alerts_table: String,
}

impl DynamoClient {
    /// The tables of the development deployment.
    pub fn new() -> (res: Self)
        ensures
            res.stocks_table@ == "stock-monitoring-bot-stocks-dev"@,
            res.alerts_table@ == "stock-monitoring-bot-alerts-dev"@,
    {
        DynamoClient {
            stocks_table: String::from_str("stock-monitoring-bot-stocks-dev"),
            alerts_table: String::from_str("stock-monitoring-bot-alerts-dev"),
        }
    }

    /// Reads one stored item: `Ok(None)` for an item that is no entry, an error for an
    /// entry whose `added_at` is not an instant, otherwise the entry.
    pub fn parse_watchlist_item(&self, item: &StoredItem, now: i64) -> (res: Result<
        Option<WatchlistItem>,
        StoreError,
    >)
        ensures
            !is_entry(*item) ==> res matches Ok(None),
            is_unreadable(*item, now) ==> res matches Err(StoreError::InvalidTimestamp),
            is_entry(*item) && !is_unreadable(*item, now) ==> (res matches Ok(Some(entry))
                && entry_of(entry, *item, now)),
    {
        let user_id = match &item.user_id {
            Some(Attribute::Text(t)) => t.clone(),
            _ => {
                return Ok(None);
            },
        };
        let symbol = match &item.symbol {
            Some(Attribute::Text(t)) => t.clone(),
            _ => {
                return Ok(None);
            },
        };
        let parsed = match &item.added_at {
            Some(Attribute::Text(t)) => parse_rfc3339(t.as_str()),
            _ => None,
        };
        let added_at = match resolve_added_at(&item.added_at, parsed, now) {
            Ok(seconds) => seconds,
            Err(e) => {
                return Err(e);
            },
        };
        let alert_threshold = match &item.alert_threshold {
            Some(Attribute::Number(n)) => parse_amount(n.as_str()),
            _ => None,
        };
        Ok(Some(WatchlistItem { user_id, symbol, added_at, alert_threshold }))
    }

    /// Reads the entries of a scan: items that are no entries are left out, and one
    /// unreadable entry fails the whole read.
    pub fn get_user_watchlist(&self, items: &Vec<StoredItem>, now: i64) -> (res: Result<
        Vec<WatchlistItem>,
        StoreError,
    >)
        ensures
            (exists|i: int| 0 <= i < items@.len() && is_unreadable(#[trigger] items@[i], now))
                ==> res matches Err(StoreError::InvalidTimestamp),
            (forall|i: int| 0 <= i < items@.len() ==> !is_unreadable(#[trigger] items@[i], now))
                ==> (res matches Ok(entries) && is_watchlist(entries@, items@, now)),
    {
        let mut watchlist: Vec<WatchlistItem> = Vec::new();
        let ghost mut positions: Seq<int> = Seq::empty();
        let mut i: usize = 0;
        while i < items.len()
            invariant
                i <= items.len(),
                positions == entry_positions(items@, i as nat),
                watchlist@.len() == positions.len(),
                forall|j: int| 0 <= j < i ==> !is_unreadable(#[trigger] items@[j], now),
                forall|k: int|
                    0 <= k < watchlist@.len() ==> entry_of(
                        #[trigger] watchlist@[k],
                        items@[positions[k]],
                        now,
                    ),
            decreases items.len() - i,
        {
            let ghost old_watchlist = watchlist@;
            let ghost old_positions = positions;
            match self.parse_watchlist_item(&items[i], now) {
                Err(e) => {
                    assert(is_unreadable(items@[i as int], now));
                    return Err(e);
                },
                Ok(None) => {},
                Ok(Some(entry)) => {
                    watchlist.push(entry);
                    proof {
                        positions = positions.push(i as int);
                        assert forall|k: int| 0 <= k < watchlist@.len() implies entry_of(
                            #[trigger] watchlist@[k],
                            items@[positions[k]],
                            now,
                        ) by {
                            if k < old_watchlist.len() {
                                assert(watchlist@[k] == old_watchlist[k]);
                                assert(positions[k] == old_positions[k]);
                            }
                        }
                    }
                },
            }
            i += 1;
        }
        Ok(watchlist)
    }

    /// The writes that set a threshold: an entry that is not there yet is created
    /// first, so the update always finds one.
    pub fn set_alert_threshold(&self, entry_exists: bool) -> (res: Vec<StoreWrite>)
        ensures
            res@ == threshold_writes(entry_exists),
    {
        let mut writes: Vec<StoreWrite> = Vec::new();
        if !entry_exists {
            writes.push(StoreWrite::Put);
        }
        writes.push(StoreWrite::UpdateThreshold);
        assert(writes@ =~= threshold_writes(entry_exists));
        writes
    }
}

/// The entries of a watchlist table: for each (user, symbol) its threshold, if any.
pub type Entries = Map<(Seq<char>, Seq<char>), Option<i64>>;

/// The table after one write for `key`: a put creates the entry afresh, without a
/// threshold; an update sets the threshold of an entry that is there and does
/// nothing where there is none.
pub open spec fn written(
    entries: Entries,
    key: (Seq<char>, Seq<char>),
    threshold: i64,
    write: StoreWrite,
) -> Entries {
    match write {
        StoreWrite::Put => entries.insert(key, None),
        StoreWrite::UpdateThreshold => if entries.contains_key(key) {
            entries.insert(key, Some(threshold))
        } else {
            entries
        },
    }
}

/// The table after a sequence of writes for `key`, applied in order.
pub open spec fn written_all(
    entries: Entries,
    key: (Seq<char>, Seq<char>),
    threshold: i64,
    writes: Seq<StoreWrite>,
) -> Entries
    decreases writes.len(),
{
    if writes.len() == 0 {
        entries
    } else {
        written(written_all(entries, key, threshold, writes.drop_last()), key, threshold, writes.last())
    }
}

/// Setting a threshold leaves the entry on the watchlist with that threshold, whether
/// or not it was tracked before, and changes no other entry.
pub proof fn lemma_threshold_is_set(entries: Entries, key: (Seq<char>, Seq<char>), threshold: i64)
    ensures
        written_all(entries, key, threshold, threshold_writes(entries.contains_key(key)))
            == entries.insert(key, Some(threshold)),
{
    let writes = threshold_writes(entries.contains_key(key));
    reveal_with_fuel(written_all, 3);
    if entries.contains_key(key) {
        assert(writes.drop_last() =~= Seq::<StoreWrite>::empty());
    } else {
        assert(writes.drop_last() =~= seq![StoreWrite::Put]);
        assert(writes.drop_last().drop_last() =~= Seq::<StoreWrite>::empty());
        assert(entries.insert(key, None).insert(key, Some(threshold)) =~= entries.insert(
            key,
            Some(threshold),
        ));
    }
}

/// Adding an entry puts it on the watchlist, and adding it again changes nothing: an
/// entry is on the watchlist at most once.
pub proof fn lemma_put_is_idempotent(entries: Entries, key: (Seq<char>, Seq<char>), threshold: i64)
    ensures
        written(entries, key, threshold, StoreWrite::Put).contains_key(key),
        written(
            written(entries, key, threshold, StoreWrite::Put),
            key,
            threshold,
            StoreWrite::Put,
        ) == written(entries, key, threshold, StoreWrite::Put),
{
    assert(entries.insert(key, None).insert(key, None) =~= entries.insert(key, None));
}

} // verus!
