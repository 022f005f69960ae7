//! Per-team unread summaries and their message total.

use vstd::prelude::*;

verus! {

/// One team's unread summary, as the unread endpoint reports it.
pub struct TeamsUnreadDataItems {
    pub team_id: String,
    pub msg_count: u32,
    pub mention_count: u32,
}

/// The plain content of one summary: team id, unread messages, mentions.
pub open spec fn item_model(it: TeamsUnreadDataItems) -> (Seq<char>, u32, u32) {
    (it.team_id@, it.msg_count, it.mention_count)
}

/// The plain content of a sequence of summaries, element by element.
pub open spec fn item_models(items: Seq<TeamsUnreadDataItems>) -> Seq<(Seq<char>, u32, u32)> {
    items.map_values(|it: TeamsUnreadDataItems| item_model(it))
}

/// What decoding `s` as a JSON array of unread summaries yields: each
/// element's team id, message count and mention count, in order; `None` when
/// the text is not an array of objects carrying a string `team_id` and
/// `msg_count` and `mention_count` numbers that fit in a u32.
pub uninterp spec fn unread_items_of(s: Seq<char>) -> Option<Seq<(Seq<char>, u32, u32)>>;

/// Relies on serde_json::from_str::<Vec<Value>> together with Value::get,
/// Value::as_str and Value::as_u64: decodes the text as an array of objects
/// carrying a string `team_id` and numeric `msg_count` and `mention_count`;
/// the result is a function of the text alone.
#[verifier::external_body]
pub(crate) fn parse_unread_items(s: &str) -> (r: Option<Vec<TeamsUnreadDataItems>>)
    ensures
        r is Some <==> unread_items_of(s@) is Some,
        r matches Some(v) ==> unread_items_of(s@) == Some(item_models(v@)),
{
    let vs: Vec<serde_json::Value> = match serde_json::from_str(s) {
        Ok(v) => v,
        Err(_) => return None,
    };
    let mut out: Vec<TeamsUnreadDataItems> = Vec::new();
    for v in vs.iter() {
        out.push(TeamsUnreadDataItems {
            team_id: v.get("team_id")?.as_str()?.to_string(),
            msg_count: u32::try_from(v.get("msg_count")?.as_u64()?).ok()?,
            mention_count: u32::try_from(v.get("mention_count")?.as_u64()?).ok()?,
        });
    }
    Some(out)
}

/// The sum of the unread message counts of the summaries, mentions ignored;
/// an empty sequence sums to zero.
pub open spec fn spec_msg_sum(items: Seq<(Seq<char>, u32, u32)>) -> int
    decreases items.len(),
{
    if items.len() == 0 {
        0
    } else {
        spec_msg_sum(items.drop_last()) + items.last().1
    }
}

/// A prefix never sums to more than the whole sequence: every count is
/// nonnegative.
pub proof fn lemma_msg_sum_prefix(items: Seq<(Seq<char>, u32, u32)>, i: int)
    requires
        0 <= i <= items.len(),
    ensures
        spec_msg_sum(items.subrange(0, i)) <= spec_msg_sum(items),
    decreases items.len() - i,
{
    if i == items.len() {
        assert(items.subrange(0, i) =~= items);
    } else {
        lemma_msg_sum_prefix(items, i + 1);
        assert(items.subrange(0, i + 1).drop_last() =~= items.subrange(0, i));
    }
}

/// The exact sum of `msg_count` over the summaries, mentions ignored; `None`
/// exactly when the sum does not fit in a u32.
pub fn sum_msg_counts(items: &Vec<TeamsUnreadDataItems>) -> (r: Option<u32>)
    ensures
        r matches Some(n) ==> n == spec_msg_sum(item_models(items@)),
        r is Some <==> spec_msg_sum(item_models(items@)) <= u32::MAX,
{
    let ghost models = item_models(items@);
    let mut n: u32 = 0;
    let mut i: usize = 0;
    while i < items.len()
        invariant
            0 <= i <= items.len(),
            models == item_models(items@),
            models.len() == items@.len(),
            n == spec_msg_sum(models.subrange(0, i as int)),
        decreases items.len() - i,
    {
        let c = items[i].msg_count;
        proof {
            assert(models.subrange(0, i + 1 as int).drop_last() =~= models.subrange(0, i as int));
            assert(models.subrange(0, i + 1 as int).last() == item_model(items@[i as int]));
        }
        if n > u32::MAX - c {
            proof {
                lemma_msg_sum_prefix(models, i + 1 as int);
            }
            return None;
        }
        n = n + c;
        i = i + 1;
    }
    proof {
        assert(models.subrange(0, items@.len() as int) =~= models);
    }
    Some(n)
}

} // verus!
