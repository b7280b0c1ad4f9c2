//! Rendering of a fetched timeline page.
//!
//! Each post is printed as a blank separator line followed by the post's
//! own (debug) text and a line break, in the order the page delivered
//! them.  Rendering only arranges text that the caller supplies; it never
//! reorders, drops or invents an entry.

use vstd::prelude::*;
use vstd::string::StringExecFns;

verus! {

/// The printed form of one post: a blank separator line, then the post's
/// text, then its own line break.
pub open spec fn rendered_entry(post: Seq<char>) -> Seq<char> {
    seq!['\n'] + post + seq!['\n']
}

/// The printed form of a whole page: the entries of its posts,
/// concatenated in the order received.
pub open spec fn rendered_feed(posts: Seq<Seq<char>>) -> Seq<char>
    decreases posts.len(),
{
    if posts.len() == 0 {
        Seq::empty()
    } else {
        rendered_entry(posts[0]) + rendered_feed(posts.drop_first())
    }
}

/// Appending one more post to a page appends exactly one more
/// blank-line-prefixed entry to its rendering, after everything already
/// rendered: entries come out one per post, in the order received.
pub proof fn lemma_rendered_feed_snoc(posts: Seq<Seq<char>>, post: Seq<char>)
    ensures
        rendered_feed(posts.push(post)) == rendered_feed(posts) + rendered_entry(post),
    decreases posts.len(),
{
    if posts.len() == 0 {
        assert(posts.push(post)[0] == post);
        assert(posts.push(post).drop_first() =~= Seq::<Seq<char>>::empty());
        assert(rendered_feed(posts.push(post)) == rendered_entry(post) + rendered_feed(
            Seq::<Seq<char>>::empty(),
        ));
        assert(rendered_feed(Seq::<Seq<char>>::empty()) == Seq::<char>::empty());
        assert(rendered_feed(posts) == Seq::<char>::empty());
        assert(rendered_feed(posts.push(post)) =~= rendered_feed(posts) + rendered_entry(post));
    } else {
        assert(posts.push(post).drop_first() =~= posts.drop_first().push(post));
        lemma_rendered_feed_snoc(posts.drop_first(), post);
        assert(rendered_feed(posts.push(post)) =~= rendered_feed(posts) + rendered_entry(post));
    }
}

/// Builds the text that the program prints for a fetched page: for each
/// post, in order, a blank separator line followed by the post's text.
pub fn render_feed(posts: &Vec<String>) -> (r: String)
    ensures
        r@ == rendered_feed(posts.deep_view()),
{
    proof {
        reveal_strlit("\n");
    }
    let mut out = String::new();
    let mut i: usize = 0;
    while i < posts.len()
        invariant
            i <= posts.len(),
            out@ == rendered_feed(posts.deep_view().take(i as int)),
        decreases posts.len() - i,
    {
        proof {
            reveal_strlit("\n");
        }
        out.append("\n");
        out.append(posts[i].as_str());
        out.append("\n");
        proof {
            let page = posts.deep_view();
            lemma_rendered_feed_snoc(page.take(i as int), page[i as int]);
            assert(page.take(i as int).push(page[i as int]) =~= page.take(i + 1));
            assert(out@ =~= rendered_feed(page.take(i + 1)));
        }
        i = i + 1;
    }
    proof {
        assert(posts.deep_view().take(posts.len() as int) =~= posts.deep_view());
    }
    out
}

} // verus!
