//! The report: the kept posts and the counters as one HTML document.

use vstd::prelude::*;
use vstd::string::StringExecFns;
use crate::decimal::{decimal, push_decimal};
use crate::policy::post_views;
use crate::post::{texts, PostData, PostView};
use crate::stats::{Counts, Stats};

verus! {

/// The first `n` lines of the stylesheet, each ended by a newline.
pub open spec fn style_text(lines: Seq<Seq<char>>, n: nat) -> Seq<char>
    decreases n,
{
    if n == 0 {
        Seq::empty()
    } else {
        style_text(lines, (n - 1) as nat) + lines[n - 1] + "\n"@
    }
}

/// The entry of the table of contents for the post at `index`: a link to the
/// post's section, labelled with its title as it stands.
pub open spec fn toc_entry(index: nat, title: Seq<char>) -> Seq<char> {
    "<li><a id=\"toc-"@ + decimal(index) + "\" href=\"#post-"@ + decimal(index) + "\">"@ + title
        + "</a></li>\n"@
}

/// The entries of the table of contents for the first `n` posts.
pub open spec fn toc_text(posts: Seq<PostView>, n: nat) -> Seq<char>
    decreases n,
{
    if n == 0 {
        Seq::empty()
    } else {
        toc_text(posts, (n - 1) as nat) + toc_entry((n - 1) as nat, posts[n - 1].title)
    }
}

/// The block that shows the three counters.
pub open spec fn stats_text(stats: Counts) -> Seq<char> {
    "<details><summary>Stats</summary><ul>\n"@ + "<li>Posts in this file: "@ + decimal(
        stats.emitted,
    ) + "</li>\n"@ + "<li>Posts skipped because of password: "@ + decimal(stats.skipped)
        + "</li>\n"@ + "<li>Total posts in backup: "@ + decimal(stats.seen) + "</li>\n"@
        + "</ul></details>\n"@
}

/// The head of the document: the stylesheet, the table of contents of
/// `posts` and the counters.
pub open spec fn header_text(lines: Seq<Seq<char>>, posts: Seq<PostView>, stats: Counts) -> Seq<
    char,
> {
    "<!DOCTYPE html><html><head>\n"@ + "<style>\n"@ + style_text(lines, lines.len())
        + "</style></head><body>\n"@ + "<details><summary>Table of Contents</summary><ul>\n"@
        + toc_text(posts, posts.len()) + "</ul></details>\n"@ + stats_text(stats)
}

/// The first `n` of `tags`, in order, with a comma and a space between two
/// neighbours.
pub open spec fn tags_text(tags: Seq<Seq<char>>, n: nat) -> Seq<char>
    decreases n,
{
    if n == 0 {
        Seq::empty()
    } else if n == 1 {
        tags[0]
    } else {
        tags_text(tags, (n - 1) as nat) + ", "@ + tags[n - 1]
    }
}

/// The section of one post: its title as a link to the post, its date, its
/// tags, its content as it stands, and a link back to the post's entry in the
/// table of contents. `index` is the post's place among the kept posts.
pub open spec fn post_text(post: PostView, index: nat) -> Seq<char> {
    "<div class=\"post\" id=\"post-"@ + decimal(index) + "\">\n"@
        + "<div class=\"title\"><a href=\""@ + post.link + "\">"@ + post.title + "</a></div>\n"@
        + "<div class=\"date\">"@ + post.date + "</div>\n"@ + "<div class=\"tags\">Tags: "@
        + tags_text(post.tags, post.tags.len()) + "</div>\n"@ + "<div class=\"contents\">"@
        + post.contents + "</div>\n"@ + "<a href=\"#toc-"@ + decimal(index)
        + "\">(back to table of contents)</a></div>\n"@
}

/// The sections of the first `n` posts, in order.
pub open spec fn sections_text(posts: Seq<PostView>, n: nat) -> Seq<char>
    decreases n,
{
    if n == 0 {
        Seq::empty()
    } else {
        sections_text(posts, (n - 1) as nat) + post_text(posts[n - 1], (n - 1) as nat)
    }
}

/// The end of the document.
pub open spec fn footer_text() -> Seq<char> {
    "</body></html>"@
}

/// The whole report.
pub open spec fn report_text(lines: Seq<Seq<char>>, posts: Seq<PostView>, stats: Counts) -> Seq<
    char,
> {
    header_text(lines, posts, stats) + sections_text(posts, posts.len()) + footer_text()
}

fn emit_style(out: &mut String, stylesheet: &[String])
    ensures
        final(out)@ == old(out)@ + style_text(texts(stylesheet@), stylesheet@.len()),
{
    let mut i: usize = 0;
    assert(out@ =~= old(out)@ + style_text(texts(stylesheet@), 0));
    while i < stylesheet.len()
        invariant
            i <= stylesheet.len(),
            out@ == old(out)@ + style_text(texts(stylesheet@), i as nat),
        decreases stylesheet.len() - i,
    {
        out.append(stylesheet[i].as_str());
        out.append("\n");
        i += 1;
        assert(out@ =~= old(out)@ + style_text(texts(stylesheet@), i as nat));
    }
}

fn emit_toc(out: &mut String, posts: &[PostData])
    ensures
        final(out)@ == old(out)@ + toc_text(post_views(posts@), posts@.len()),
{
    let mut index: usize = 0;
    assert(out@ =~= old(out)@ + toc_text(post_views(posts@), 0));
    while index < posts.len()
        invariant
            index <= posts.len(),
            out@ == old(out)@ + toc_text(post_views(posts@), index as nat),
        decreases posts.len() - index,
    {
        out.append("<li><a id=\"toc-");
        push_decimal(out, index as u64);
        out.append("\" href=\"#post-");
        push_decimal(out, index as u64);
        out.append("\">");
        out.append(posts[index].title.as_str());
        out.append("</a></li>\n");
        index += 1;
        assert(out@ =~= old(out)@ + toc_text(post_views(posts@), index as nat));
    }
}

fn emit_stats(out: &mut String, stats: &Stats)
    ensures
        final(out)@ == old(out)@ + stats_text(stats@),
{
    out.append("<details><summary>Stats</summary><ul>\n");
    out.append("<li>Posts in this file: ");
    push_decimal(out, stats.posts_emitted as u64);
    out.append("</li>\n");
    out.append("<li>Posts skipped because of password: ");
    push_decimal(out, stats.posts_skipped_because_of_password as u64);
    out.append("</li>\n");
    out.append("<li>Total posts in backup: ");
    push_decimal(out, stats.total_posts as u64);
    out.append("</li>\n");
    out.append("</ul></details>\n");
    assert(out@ =~= old(out)@ + stats_text(stats@));
}

/// Appends the head of the document to `out`. `stylesheet` holds the lines of
/// the stylesheet, without their line ends.
pub fn emit_header(out: &mut String, stylesheet: &[String], posts: &[PostData], stats: &Stats)
    ensures
        final(out)@ == old(out)@ + header_text(
            texts(stylesheet@),
            post_views(posts@),
            stats@,
        ),
{
    out.append("<!DOCTYPE html><html><head>\n");
    out.append("<style>\n");
    emit_style(out, stylesheet);
    out.append("</style></head><body>\n");
    out.append("<details><summary>Table of Contents</summary><ul>\n");
    emit_toc(out, posts);
    out.append("</ul></details>\n");
    emit_stats(out, stats);
    assert(out@ =~= old(out)@ + header_text(texts(stylesheet@), post_views(posts@), stats@));
}

fn emit_tags(out: &mut String, tags: &Vec<String>)
    ensures
        final(out)@ == old(out)@ + tags_text(texts(tags@), tags@.len()),
{
    let mut i: usize = 0;
    assert(out@ =~= old(out)@ + tags_text(texts(tags@), 0));
    while i < tags.len()
        invariant
            i <= tags.len(),
            out@ == old(out)@ + tags_text(texts(tags@), i as nat),
        decreases tags.len() - i,
    {
        if i > 0 {
            out.append(", ");
        }
        out.append(tags[i].as_str());
        i += 1;
        assert(out@ =~= old(out)@ + tags_text(texts(tags@), i as nat));
    }
}

/// Appends the section of one post to `out`. `index` is the post's place
/// among the kept posts.
pub fn emit_post(out: &mut String, post_data: &PostData, index: usize)
    ensures
        final(out)@ == old(out)@ + post_text(post_data@, index as nat),
{
    out.append("<div class=\"post\" id=\"post-");
    push_decimal(out, index as u64);
    out.append("\">\n");
    out.append("<div class=\"title\"><a href=\"");
    out.append(post_data.link.as_str());
    out.append("\">");
    out.append(post_data.title.as_str());
    out.append("</a></div>\n");
    out.append("<div class=\"date\">");
    out.append(post_data.date.as_str());
    out.append("</div>\n");
    out.append("<div class=\"tags\">Tags: ");
    emit_tags(out, &post_data.tags);
    out.append("</div>\n");
    out.append("<div class=\"contents\">");
    out.append(post_data.contents.as_str());
    out.append("</div>\n");
    out.append("<a href=\"#toc-");
    push_decimal(out, index as u64);
    out.append("\">(back to table of contents)</a></div>\n");
    assert(out@ =~= old(out)@ + post_text(post_data@, index as nat));
}

/// Appends the end of the document to `out`.
pub fn emit_footer(out: &mut String)
    ensures
        final(out)@ == old(out)@ + footer_text(),
{
    out.append("</body></html>");
}

/// The whole report as one text: the head, one section for each of `posts`
/// in order, and the end.
pub fn render_report(stylesheet: &[String], posts: &[PostData], stats: &Stats) -> (html: String)
    ensures
        html@ == report_text(texts(stylesheet@), post_views(posts@), stats@),
{
    let mut html = String::new();
    emit_header(&mut html, stylesheet, posts, stats);
    let ghost head = html@;
    let mut index: usize = 0;
    assert(html@ =~= head + sections_text(post_views(posts@), 0));
    while index < posts.len()
        invariant
            index <= posts.len(),
            html@ == head + sections_text(post_views(posts@), index as nat),
        decreases posts.len() - index,
    {
        emit_post(&mut html, &posts[index], index);
        index += 1;
        assert(html@ =~= head + sections_text(post_views(posts@), index as nat));
    }
    emit_footer(&mut html);
    assert(html@ =~= report_text(texts(stylesheet@), post_views(posts@), stats@));
    html
}

} // verus!
