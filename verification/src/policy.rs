//! What becomes of a post when its element closes.

use vstd::prelude::*;
use crate::error::{ExtractError, Failure};
use crate::post::{PostData, PostView};
use crate::stats::{Counts, Stats};

verus! {

/// The views of `posts`, in order.
pub open spec fn post_views(posts: Seq<PostData>) -> Seq<PostView> {
    Seq::new(posts.len(), |i: int| posts[i]@)
}

/// Whether a closed post is kept: it carries `target` among its tags and has
/// no password.
pub open spec fn is_kept(post: PostView, target: Seq<char>) -> bool {
    post.has_tag(target) && !post.has_password
}

/// The kept posts after `post` closed: `post` joins them at the end if it is
/// kept, and is dropped if not.
pub open spec fn kept_after(kept: Seq<PostView>, post: PostView, target: Seq<char>) -> Seq<
    PostView,
> {
    if is_kept(post, target) {
        kept.push(post)
    } else {
        kept
    }
}

/// Settles a post that closed. The post is counted as seen. If it carries
/// `target` and has no password, it is counted as emitted and moved to the
/// end of `posts`; if it carries `target` and has a password, it is counted as
/// skipped and dropped; otherwise it is dropped. Fails, and changes nothing,
/// when the counter of posts seen is full.
pub fn record_policy(
    post: PostData,
    target: &str,
    posts: &mut Vec<PostData>,
    stats: &mut Stats,
) -> (outcome: Result<(), ExtractError>)
    requires
        old(stats)@.conserved(),
    ensures
        if old(stats)@.seen >= u32::MAX {
            &&& outcome matches Err(e)
            &&& e@ == Failure::CounterOverflow
            &&& *final(stats) == *old(stats)
            &&& *final(posts) == *old(posts)
        } else {
            &&& outcome is Ok
            &&& final(stats)@ == old(stats)@.count(post@.has_tag(target@), post@.has_password)
            &&& post_views(final(posts)@) == kept_after(post_views(old(posts)@), post@, target@)
        },
{
    if stats.total_posts == u32::MAX {
        return Err(ExtractError::CounterOverflow);
    }
    stats.total_posts += 1;
    if post.has_tag(target) {
        if post.has_password {
            stats.posts_skipped_because_of_password += 1;
        } else {
            stats.posts_emitted += 1;
            posts.push(post);
            assert(post_views(posts@) =~= post_views(old(posts)@).push(post@));
        }
    }
    Ok(())
}

} // verus!
