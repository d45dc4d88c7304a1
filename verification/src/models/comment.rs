//! Blog comments: the stored record, the creation request, and the threaded
//! display of a post's approved comments.
use vstd::prelude::*;

use crate::text::{clone_opt, opt_view};

verus! {

/// A stored comment (`created_at` in Unix seconds).
#[derive(Debug)]
pub struct BlogComment {
    pub id: u64,
    pub post_id: u64,
    pub parent_id: Option<u64>,
    pub author_name: String,
    pub author_email: Option<String>,
    pub author_avatar_url: Option<String>,
    pub content: String,
    pub oauth_provider: Option<String>,
    pub oauth_id: Option<String>,
    pub ip_address: Option<String>,
    pub user_agent: Option<String>,
    pub status: String,
    pub rejection_reason: Option<String>,
    pub created_at: i64,
}

/// A request to store a new comment.
#[derive(Debug)]
pub struct CreateComment {
    pub post_id: u64,
    pub parent_id: Option<u64>,
    pub author_name: String,
    pub author_email: Option<String>,
    pub content: String,
    pub oauth_provider: Option<String>,
    pub oauth_id: Option<String>,
    pub author_avatar_url: Option<String>,
    pub ip_address: Option<String>,
    pub user_agent: Option<String>,
}

/// A comment as the post page shows it, with its replies.
#[derive(Debug)]
pub struct CommentDisplay {
    pub id: u64,
    pub author_name: String,
    pub author_avatar_url: Option<String>,
    pub oauth_provider: Option<String>,
    pub content: String,
    pub created_at: i64,
    pub parent_id: Option<u64>,
    pub replies: Vec<CommentDisplay>,
}

/// The top-level comments (those without a parent), in order.
pub open spec fn top_level(cs: Seq<BlogComment>) -> Seq<BlogComment>
    decreases cs.len(),
{
    if cs.len() == 0 {
        seq![]
    } else if cs.last().parent_id is None {
        top_level(cs.drop_last()).push(cs.last())
    } else {
        top_level(cs.drop_last())
    }
}

/// The comments whose parent is `id`, in order.
pub open spec fn replies_to(cs: Seq<BlogComment>, id: u64) -> Seq<BlogComment>
    decreases cs.len(),
{
    if cs.len() == 0 {
        seq![]
    } else if cs.last().parent_id == Some(id) {
        replies_to(cs.drop_last(), id).push(cs.last())
    } else {
        replies_to(cs.drop_last(), id)
    }
}

/// `d` shows comment `c` (same id, author, avatar, provider, text, time and parent).
pub open spec fn shows(d: CommentDisplay, c: BlogComment) -> bool {
    &&& d.id == c.id
    &&& d.author_name@ == c.author_name@
    &&& opt_view(d.author_avatar_url) == opt_view(c.author_avatar_url)
    &&& opt_view(d.oauth_provider) == opt_view(c.oauth_provider)
    &&& d.content@ == c.content@
    &&& d.created_at == c.created_at
    &&& d.parent_id == c.parent_id
}

/// The replies that the `k`-th top-level comment collects: the comments whose
/// parent it is, unless an earlier top-level comment has the same id (that
/// one takes them).
pub open spec fn collected_replies(cs: Seq<BlogComment>, k: int) -> Seq<BlogComment> {
    let roots = top_level(cs);
    if exists|j: int| 0 <= j < k && (#[trigger] roots[j]).id == roots[k].id {
        seq![]
    } else {
        replies_to(cs, roots[k].id)
    }
}

/// `r` is the threaded display of `cs`.
pub open spec fn threads(cs: Seq<BlogComment>, r: Seq<CommentDisplay>) -> bool {
    let roots = top_level(cs);
    &&& r.len() == roots.len()
    &&& forall|k: int| 0 <= k < r.len() ==> {
        let d = #[trigger] r[k];
        let expected = collected_replies(cs, k);
        &&& shows(d, roots[k])
        &&& d.replies@.len() == expected.len()
        &&& forall|m: int| 0 <= m < expected.len() ==> shows(#[trigger] d.replies@[m], expected[m]) && d.replies@[m].replies@.len() == 0
    }
}

proof fn lemma_replies_have_parent(cs: Seq<BlogComment>, id: u64)
    ensures
        forall|m: int| 0 <= m < replies_to(cs, id).len() ==> (#[trigger] replies_to(cs, id)[m]).parent_id == Some(id),
    decreases cs.len(),
{
    if cs.len() > 0 {
        lemma_replies_have_parent(cs.drop_last(), id);
    }
}

proof fn lemma_top_level_has_no_parent(cs: Seq<BlogComment>)
    ensures
        forall|m: int| 0 <= m < top_level(cs).len() ==> (#[trigger] top_level(cs)[m]).parent_id is None,
    decreases cs.len(),
{
    if cs.len() > 0 {
        lemma_top_level_has_no_parent(cs.drop_last());
    }
}

/// Law: in the threaded display every top-level comment has no parent, and
/// every reply is a reply to the comment it is shown under.
pub proof fn law_replies_belong_to_their_thread(cs: Seq<BlogComment>, r: Seq<CommentDisplay>, k: int, m: int)
    requires
        threads(cs, r),
        0 <= k < r.len(),
        0 <= m < r[k].replies@.len(),
    ensures
        r[k].parent_id is None,
        r[k].replies@[m].parent_id == Some(r[k].id),
{
    lemma_top_level_has_no_parent(cs);
    let roots = top_level(cs);
    assert(shows(r[k], roots[k]));
    let expected = collected_replies(cs, k);
    assert(shows(r[k].replies@[m], expected[m]));
    lemma_replies_have_parent(cs, roots[k].id);
}

impl BlogComment {
    /// The row offset of page `page` of the moderation queue (page 0 reads as 1).
    pub fn page_offset(page: u32, per_page: u32) -> (r: u32)
        requires
            (if page == 0 { 0 } else { page - 1 }) * per_page <= u32::MAX,
        ensures
            r == (if page == 0 { 0 } else { page - 1 }) * per_page,
    {
        page.saturating_sub(1) * per_page
    }

    /// The display of a comment, without replies.
    pub fn to_display(&self) -> (r: CommentDisplay)
        ensures
            shows(r, *self),
            r.replies@.len() == 0,
    {
        CommentDisplay {
            id: self.id,
            author_name: self.author_name.clone(),
            author_avatar_url: clone_opt(&self.author_avatar_url),
            oauth_provider: clone_opt(&self.oauth_provider),
            content: self.content.clone(),
            created_at: self.created_at,
            parent_id: self.parent_id,
            replies: Vec::new(),
        }
    }

    /// Threads a post's approved comments (in their stored order): the
    /// top-level comments in order, each with the comments that reply to it.
    /// A reply goes to the first top-level comment with its parent's id;
    /// replies to replies or to missing comments are not shown.
    pub fn nest(cs: &Vec<BlogComment>) -> (r: Vec<CommentDisplay>)
        ensures
            threads(cs@, r@),
    {
        let ghost all = cs@;
        // The positions of the top-level comments.
        let mut roots: Vec<usize> = Vec::new();
        let mut i: usize = 0;
        while i < cs.len()
            invariant
                i <= cs@.len(),
                all == cs@,
                forall|k: int| 0 <= k < roots@.len() ==> (#[trigger] roots@[k]) < cs@.len(),
                roots@.map_values(|p: usize| all[p as int]) == top_level(all.take(i as int)),
            decreases cs.len() - i,
        {
            proof {
                assert(all.take(i + 1).drop_last() =~= all.take(i as int));
                assert(all.take(i + 1).last() == all[i as int]);
            }
            if cs[i].parent_id.is_none() {
                let ghost before = roots@;
                roots.push(i);
                assert(roots@.map_values(|p: usize| all[p as int]) =~= before.map_values(|p: usize| all[p as int]).push(all[i as int]));
            }
            i = i + 1;
        }
        assert(all.take(all.len() as int) =~= all);
        let ghost top = top_level(all);
        assert forall|k: int| 0 <= k < roots@.len() implies all[(#[trigger] roots@[k]) as int] == top[k] by {
            assert(roots@.map_values(|p: usize| all[p as int])[k] == all[roots@[k] as int]);
        }
        let mut result: Vec<CommentDisplay> = Vec::new();
        let mut k: usize = 0;
        while k < roots.len()
            invariant
                k <= roots@.len() == top.len(),
                all == cs@,
                top == top_level(all),
                forall|q: int| 0 <= q < roots@.len() ==> (#[trigger] roots@[q]) < cs@.len(),
                forall|q: int| 0 <= q < roots@.len() ==> all[(#[trigger] roots@[q]) as int] == top[q],
                result@.len() == k,
                forall|q: int| 0 <= q < k ==> {
                    let d = #[trigger] result@[q];
                    let expected = collected_replies(all, q);
                    &&& shows(d, top[q])
                    &&& d.replies@.len() == expected.len()
                    &&& forall|m: int| 0 <= m < expected.len() ==> shows(#[trigger] d.replies@[m], expected[m]) && d.replies@[m].replies@.len() == 0
                },
            decreases roots.len() - k,
        {
            let c = &cs[roots[k]];
            let id = c.id;
            // Is there an earlier top-level comment with the same id?
            let mut earlier = false;
            let mut j: usize = 0;
            while j < k
                invariant
                    j <= k < roots@.len(),
                    forall|q: int| 0 <= q < roots@.len() ==> (#[trigger] roots@[q]) < cs@.len(),
                    forall|q: int| 0 <= q < roots@.len() ==> all[(#[trigger] roots@[q]) as int] == top[q],
                    all == cs@,
                    id == top[k as int].id,
                    earlier <==> exists|q: int| 0 <= q < j && (#[trigger] top[q]).id == top[k as int].id,
                decreases k - j,
            {
                if cs[roots[j]].id == id {
                    earlier = true;
                }
                j = j + 1;
            }
            let mut replies: Vec<CommentDisplay> = Vec::new();
            if !earlier {
                let mut m: usize = 0;
                while m < cs.len()
                    invariant
                        m <= cs@.len(),
                        all == cs@,
                        replies@.len() == replies_to(all.take(m as int), id).len(),
                        forall|x: int| 0 <= x < replies@.len() ==> shows(#[trigger] replies@[x], replies_to(all.take(m as int), id)[x]) && replies@[x].replies@.len() == 0,
                    decreases cs.len() - m,
                {
                    proof {
                        assert(all.take(m + 1).drop_last() =~= all.take(m as int));
                        assert(all.take(m + 1).last() == all[m as int]);
                    }
                    if cs[m].parent_id == Some(id) {
                        let d = cs[m].to_display();
                        replies.push(d);
                    }
                    m = m + 1;
                }
                assert(all.take(all.len() as int) =~= all);
            }
            let d = CommentDisplay {
                id: c.id,
                author_name: c.author_name.clone(),
                author_avatar_url: clone_opt(&c.author_avatar_url),
                oauth_provider: clone_opt(&c.oauth_provider),
                content: c.content.clone(),
                created_at: c.created_at,
                parent_id: c.parent_id,
                replies,
            };
            result.push(d);
            k = k + 1;
        }
        result
    }
}

} // verus!
