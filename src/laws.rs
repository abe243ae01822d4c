//! Properties that relate several operations of the store and the context.

use vstd::prelude::*;

use crate::cache::{
    FetchEvent, ImageCacheResult, ImageLoadListener, LoadState, LoadView, ResourceKey,
    event_next, event_result, index_of, keys_unique, known, listener_next, listener_result,
    notifications, status_next, status_result, terminal_response, event_outcome,
};
use crate::context::{ContextView, OpaqueNode, ResolveImageError, memo_unique, url_step};
use crate::image::{PendingImageId, RasterImage, UsePlaceholder};

verus! {

/// The answers to successive status queries for `keys`, starting from `records`.
pub open spec fn run_queries(records: Seq<LoadView>, placeholder_url: String, keys: Seq<ResourceKey>) -> Seq<ImageCacheResult>
    decreases keys.len(),
{
    if keys.len() == 0 {
        Seq::empty()
    } else {
        seq![status_result(records, placeholder_url, keys[0]@)] + run_queries(
            status_next(records, keys[0]),
            placeholder_url,
            keys.drop_first(),
        )
    }
}

proof fn lemma_queries_while_pending(
    records: Seq<LoadView>,
    placeholder_url: String,
    keys: Seq<ResourceKey>,
    i: int,
)
    requires
        0 <= i < records.len(),
        keys_unique(records),
        records[i].state == LoadState::InFlight(None),
        forall|j: int| 0 <= j < keys.len() ==> (#[trigger] keys[j])@ == records[i].key@,
    ensures
        run_queries(records, placeholder_url, keys).len() == keys.len(),
        forall|j: int|
            0 <= j < keys.len() ==> #[trigger] run_queries(records, placeholder_url, keys)[j]
                == ImageCacheResult::Pending(PendingImageId(i as u64)),
    decreases keys.len(),
{
    if keys.len() > 0 {
        let k = keys[0]@;
        assert(known(records, k)) by {
            assert(records[i].key@ == k);
        }
        let found = index_of(records, k);
        assert(found == i);
        assert(status_next(records, keys[0]) == records);
        let rest = keys.drop_first();
        assert forall|j: int| 0 <= j < rest.len() implies (#[trigger] rest[j])@ == records[i].key@ by {
            assert(rest[j] == keys[j + 1]);
        }
        lemma_queries_while_pending(records, placeholder_url, rest, i);
        let run = run_queries(records, placeholder_url, keys);
        assert forall|j: int| 0 <= j < keys.len() implies #[trigger] run[j] == ImageCacheResult::Pending(
            PendingImageId(i as u64),
        ) by {
            if j > 0 {
                assert(run[j] == run_queries(records, placeholder_url, rest)[j - 1]);
            }
        }
    }
}

/// Of any number of status queries for a resource that the store has not
/// seen, made before its load ends, exactly the first gets
/// `ReadyForRequest`, and every other one gets `Pending` with the same id.
pub proof fn lemma_one_request_per_resource(
    records: Seq<LoadView>,
    placeholder_url: String,
    keys: Seq<ResourceKey>,
)
    requires
        keys_unique(records),
        keys.len() > 0,
        !known(records, keys[0]@),
        forall|j: int| 0 <= j < keys.len() ==> (#[trigger] keys[j])@ == keys[0]@,
    ensures
        ({
            let answers = run_queries(records, placeholder_url, keys);
            let id = PendingImageId(records.len() as u64);
            &&& answers.len() == keys.len()
            &&& answers[0] == ImageCacheResult::ReadyForRequest(id)
            &&& forall|j: int| 1 <= j < keys.len() ==> #[trigger] answers[j] == ImageCacheResult::Pending(id)
        }),
{
    let next = status_next(records, keys[0]);
    let n = records.len() as int;
    assert(next[n].key == keys[0]);
    assert forall|a: int, b: int| 0 <= a < next.len() && 0 <= b < next.len() && a != b implies (#[trigger] next[a]).key@
        != (#[trigger] next[b]).key@ by {
        if a < n && b < n {
            assert(next[a] == records[a] && next[b] == records[b]);
        } else if a < n {
            assert(next[a] == records[a]);
        } else {
            assert(next[b] == records[b]);
        }
    }
    let rest = keys.drop_first();
    assert forall|j: int| 0 <= j < rest.len() implies (#[trigger] rest[j])@ == next[n].key@ by {
        assert(rest[j] == keys[j + 1]);
    }
    lemma_queries_while_pending(next, placeholder_url, rest, n);
    let answers = run_queries(records, placeholder_url, keys);
    assert forall|j: int| 1 <= j < keys.len() implies #[trigger] answers[j] == ImageCacheResult::Pending(
        PendingImageId(records.len() as u64),
    ) by {
        assert(answers[j] == run_queries(next, placeholder_url, rest)[j - 1]);
    }
}

/// A listener registered after a load has ended is answered at once with
/// the outcome, is not kept, and hears nothing more of that load.
pub proof fn lemma_listener_after_resolution(
    records: Seq<LoadView>,
    placeholder_image: Option<RasterImage>,
    placeholder_url: String,
    listener: ImageLoadListener,
    later: FetchEvent,
)
    requires
        listener.id.0 < records.len(),
        !(records[listener.id.0 as int].state is InFlight),
    ensures
        ({
            let response = terminal_response(records[listener.id.0 as int], placeholder_url);
            &&& response is Some
            &&& listener_result(records, placeholder_url, listener) == Some(
                listener.notification(response.unwrap()),
            )
            &&& listener_next(records, listener) == records
            &&& event_result(records, placeholder_image, placeholder_url, listener.id, later)
                == Seq::<crate::cache::Notification>::empty()
        }),
{
}

/// A listener registered while a load is in flight gets no answer then; the
/// event that ends the load answers it exactly once, beside the listeners
/// that were there before, and no later event answers it again.
pub proof fn lemma_listener_before_resolution(
    records: Seq<LoadView>,
    placeholder_image: Option<RasterImage>,
    placeholder_url: String,
    listener: ImageLoadListener,
    ending: FetchEvent,
    later: FetchEvent,
)
    requires
        listener.id.0 < records.len(),
        records[listener.id.0 as int].state is InFlight,
        !(ending is Metadata),
    ensures
        ({
            let id = listener.id;
            let registered = listener_next(records, listener);
            let response = event_outcome(records[id.0 as int], placeholder_image, placeholder_url, ending).1;
            let ended = event_next(registered, placeholder_image, placeholder_url, id, ending);
            &&& listener_result(records, placeholder_url, listener) is None
            &&& event_result(registered, placeholder_image, placeholder_url, id, ending)
                == event_result(records, placeholder_image, placeholder_url, id, ending).push(
                listener.notification(response),
            )
            &&& event_result(ended, placeholder_image, placeholder_url, id, later)
                == Seq::<crate::cache::Notification>::empty()
        }),
{
    let id = listener.id;
    let rec = records[id.0 as int];
    let registered = listener_next(records, listener);
    assert(registered[id.0 as int].key == rec.key);
    let response = event_outcome(rec, placeholder_image, placeholder_url, ending).1;
    assert(notifications(rec.listeners.push(listener), response) =~= notifications(rec.listeners, response).push(
        listener.notification(response),
    ));
}

/// Two lookups of one URL in a pass ask the cache at most once: once the
/// first has an image or a failed load, the second gives the same outcome
/// from the memo, whatever the cache holds by then, and leaves the pass and
/// the cache as they were.
pub proof fn lemma_lookup_remembered(
    cv: ContextView,
    records: Seq<LoadView>,
    placeholder_url: String,
    origin: crate::cache::ImmutableOrigin,
    node: OpaqueNode,
    url: String,
    use_placeholder: UsePlaceholder,
    later_records: Seq<LoadView>,
    later_placeholder_url: String,
    later_node: OpaqueNode,
    later_url: String,
)
    requires
        memo_unique(cv.memo),
        later_url@ == url@,
        ({
            let first = url_step(cv, records, placeholder_url, origin, node, url, use_placeholder);
            first.0 is Ok || first.0 == Err::<crate::image::Image, ResolveImageError>(ResolveImageError::LoadError)
        }),
    ensures
        ({
            let first = url_step(cv, records, placeholder_url, origin, node, url, use_placeholder);
            let second = url_step(
                first.1,
                later_records,
                later_placeholder_url,
                origin,
                later_node,
                later_url,
                use_placeholder,
            );
            &&& memo_unique(first.1.memo)
            &&& second.0 == first.0
            &&& second.1 == first.1
            &&& second.2 == later_records
        }),
{
    let first = url_step(cv, records, placeholder_url, origin, node, url, use_placeholder);
    if crate::context::memo_lookup(cv.memo, url@, use_placeholder) is None {
        let memo = first.1.memo;
        let n = cv.memo.len() as int;
        assert(memo.len() == n + 1);
        assert(memo[n].url == url && memo[n].use_placeholder == use_placeholder);
        assert forall|a: int, b: int| 0 <= a < memo.len() && 0 <= b < memo.len() && a != b implies !((
        #[trigger] memo[a]).url@ == (#[trigger] memo[b]).url@ && memo[a].use_placeholder
            == memo[b].use_placeholder) by {
            if a < n && b < n {
                assert(memo[a] == cv.memo[a] && memo[b] == cv.memo[b]);
            } else if a < n {
                assert(memo[a] == cv.memo[a]);
            } else {
                assert(memo[b] == cv.memo[b]);
            }
        }
        assert(crate::context::memo_has(memo, url@, use_placeholder));
    }
}

} // verus!
