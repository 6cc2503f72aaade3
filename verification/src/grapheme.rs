//! Grapheme clusters: what a reader takes for one character.
//!
//! Where one cluster ends and the next begins is decided by the tables of
//! the `unicode-segmentation` crate. This module gives that decision a name,
//! calls the crate, and derives from its answer the place a deletion starts.

use crate::chars::string_of_prefix;
use unicode_segmentation::UnicodeSegmentation;
use vstd::prelude::*;
use vstd::string::StrSliceExecFns;

verus! {

/// The last extended grapheme cluster of `text`, as `unicode-segmentation`
/// cuts it, or `None` for the empty text.
pub uninterp spec fn last_grapheme(text: Seq<char>) -> Option<Seq<char>>;

/// Where the grapheme cluster that ends at `cursor` starts: `cursor` less the
/// length of the last cluster of the text before the cursor.
pub open spec fn grapheme_start_before(text: Seq<char>, cursor: int) -> int {
    match last_grapheme(text.take(cursor)) {
        Some(cluster) => cursor - cluster.len(),
        None => cursor,
    }
}

/// Trusted: calls `UnicodeSegmentation::graphemes(text, true)` and takes the
/// last item with `next_back`. The contract names the answer and claims of
/// it what the iterator's source shows: there is no cluster exactly for the
/// empty text, and otherwise the cluster is a non-empty tail of `text`.
#[verifier::external_body]
fn last_cluster(text: &str) -> (cluster: Option<String>)
    ensures
        cluster.deep_view() == last_grapheme(text@),
        cluster is None <==> text@.len() == 0,
        cluster matches Some(tail) ==> 1 <= tail@.len() <= text@.len() && tail@ == text@.skip(
            text@.len() - tail@.len(),
        ),
{
    UnicodeSegmentation::graphemes(text, true).next_back().map(String::from)
}

/// Finds where the grapheme cluster that ends at `cursor` starts.
///
/// The result lies before the cursor, and the characters between the two
/// are the last grapheme cluster of the text before the cursor. At position
/// 0 there is no such cluster and the result is 0.
pub fn grapheme_start(text: &Vec<char>, cursor: usize) -> (start: usize)
    requires
        cursor <= text.len(),
    ensures
        start == grapheme_start_before(text@, cursor as int),
        start <= cursor,
        cursor > 0 ==> start < cursor,
        last_grapheme(text@.take(cursor as int)) == if cursor == 0 {
            None
        } else {
            Some(text@.subrange(start as int, cursor as int))
        },
{
    let prefix = string_of_prefix(text, cursor);
    match last_cluster(prefix.as_str()) {
        Some(cluster) => {
            let width: usize = cluster.as_str().unicode_len();
            proof {
                assert(text@.take(cursor as int).skip(cursor - width) =~= text@.subrange(
                    cursor - width,
                    cursor as int,
                ));
            }
            cursor - width
        },
        None => cursor,
    }
}

} // verus!
