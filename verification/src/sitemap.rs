//! Site metadata emission: the sitemap and the crawler policy.
//!
//! The sitemap enumerates the site root (highest priority, monthly), the blog
//! index (weekly) and one entry per post (monthly) whose last-modified date
//! is the record's date. The crawler policy allows general access, points to
//! the sitemap, and excludes build directories and compiled-binary assets.

use vstd::prelude::*;
use crate::pages::{scalar_field, get_scalar};
use crate::record::{PostData, PostValueView, record_views};
use crate::strutil::{join_spec, join_strings, str_views, lemma_str_views_push};
use vstd::string::{StrSliceExecFns, StringExecFns};

verus! {

/// Sitemap chunks. An entry opens with the location tag; the root and index
/// entries carry fixed change frequencies and priorities; a post entry holds
/// its slug and date.
pub const SM_LOC_OPEN: &'static str = "    <url>\n        <loc>";

pub const SM_ROOT_CLOSE: &'static str =
    "</loc>\n        <changefreq>monthly</changefreq>\n        <priority>1.0</priority>\n    </url>";

pub const SM_INDEX_CLOSE: &'static str =
    "/blog/index.html</loc>\n        <changefreq>weekly</changefreq>\n        <priority>0.9</priority>\n    </url>";

pub const SM_POST_BLOG: &'static str = "/blog/";

pub const SM_POST_LASTMOD: &'static str = ".html</loc>\n        <lastmod>";

pub const SM_POST_CLOSE: &'static str =
    "</lastmod>\n        <changefreq>monthly</changefreq>\n        <priority>0.7</priority>\n    </url>";

pub const SM_HEAD: &'static str =
    "<?xml version=\"1.0\" encoding=\"UTF-8\"?>\n<urlset xmlns=\"http://www.sitemaps.org/schemas/sitemap/0.9\">\n";

pub const SM_TAIL: &'static str = "\n</urlset>";

/// The sitemap entry of the site root.
pub open spec fn sitemap_root_entry_spec(base: Seq<char>) -> Seq<char> {
    SM_LOC_OPEN@ + base + SM_ROOT_CLOSE@
}

/// The sitemap entry of the blog index.
pub open spec fn sitemap_index_entry_spec(base: Seq<char>) -> Seq<char> {
    SM_LOC_OPEN@ + base + SM_INDEX_CLOSE@
}

/// The sitemap entry of one post.
pub open spec fn sitemap_post_entry_spec(slug: Seq<char>, date: Seq<char>, base: Seq<char>) -> Seq<
    char,
> {
    SM_LOC_OPEN@ + base + SM_POST_BLOG@ + slug + SM_POST_LASTMOD@ + date + SM_POST_CLOSE@
}

/// The sitemap entries of a sequence of records, in order; a record lacking
/// slug or date is skipped.
pub open spec fn sitemap_post_entries_spec(
    posts: Seq<Map<Seq<char>, PostValueView>>,
    base: Seq<char>,
) -> Seq<Seq<char>>
    decreases posts.len(),
{
    if posts.len() == 0 {
        Seq::empty()
    } else {
        let init = sitemap_post_entries_spec(posts.drop_last(), base);
        let m = posts.last();
        if scalar_field(m, "slug"@) is Some && scalar_field(m, "date"@) is Some {
            init.push(
                sitemap_post_entry_spec(
                    scalar_field(m, "slug"@)->Some_0,
                    scalar_field(m, "date"@)->Some_0,
                    base,
                ),
            )
        } else {
            init
        }
    }
}

/// The whole sitemap document: the root entry, the blog index entry, then
/// one entry per post in order.
pub open spec fn sitemap_spec(posts: Seq<Map<Seq<char>, PostValueView>>, base: Seq<char>) -> Seq<
    char,
> {
    SM_HEAD@ + join_spec(
        seq![sitemap_root_entry_spec(base), sitemap_index_entry_spec(base)]
            + sitemap_post_entries_spec(posts, base),
        "\n"@,
    ) + SM_TAIL@
}

/// Emits the sitemap document for the record set.
pub fn generate_sitemap(posts: &Vec<PostData>, base_url: &str) -> (r: String)
    ensures
        r@ == sitemap_spec(record_views(posts@), base_url@),
{
    let ghost ms = record_views(posts@);
    let mut entries: Vec<String> = Vec::new();
    let mut root_entry = String::from_str(SM_LOC_OPEN);
    root_entry.append(base_url);
    root_entry.append(SM_ROOT_CLOSE);
    let ghost prev0 = entries@;
    entries.push(root_entry);
    proof {
        lemma_str_views_push(prev0, root_entry);
    }
    let mut index_entry = String::from_str(SM_LOC_OPEN);
    index_entry.append(base_url);
    index_entry.append(SM_INDEX_CLOSE);
    let ghost prev1 = entries@;
    entries.push(index_entry);
    proof {
        lemma_str_views_push(prev1, index_entry);
        assert(str_views(entries@) =~= seq![
            sitemap_root_entry_spec(base_url@),
            sitemap_index_entry_spec(base_url@),
        ] + sitemap_post_entries_spec(Seq::<Map<Seq<char>, PostValueView>>::empty(), base_url@));
    }
    let ghost fixed = seq![
        sitemap_root_entry_spec(base_url@),
        sitemap_index_entry_spec(base_url@),
    ];
    let mut i: usize = 0;
    while i < posts.len()
        invariant
            i <= posts@.len(),
            ms == record_views(posts@),
            fixed == seq![
                sitemap_root_entry_spec(base_url@),
                sitemap_index_entry_spec(base_url@),
            ],
            str_views(entries@) == fixed + sitemap_post_entries_spec(
                ms.take(i as int),
                base_url@,
            ),
        decreases posts@.len() - i,
    {
        let post = &posts[i];
        proof {
            assert(ms.take(i + 1).drop_last() =~= ms.take(i as int));
            assert(ms.take(i + 1).last() == ms[i as int]);
            assert(ms[i as int] == posts@[i as int]@);
        }
        let slug = match get_scalar(post, "slug") {
            Ok(s) => s,
            Err(_) => {
                proof {
                    assert(sitemap_post_entries_spec(ms.take(i + 1), base_url@)
                        == sitemap_post_entries_spec(ms.take(i as int), base_url@));
                }
                i = i + 1;
                continue ;
            },
        };
        let date = match get_scalar(post, "date") {
            Ok(s) => s,
            Err(_) => {
                proof {
                    assert(sitemap_post_entries_spec(ms.take(i + 1), base_url@)
                        == sitemap_post_entries_spec(ms.take(i as int), base_url@));
                }
                i = i + 1;
                continue ;
            },
        };
        let mut entry = String::from_str(SM_LOC_OPEN);
        entry.append(base_url);
        entry.append(SM_POST_BLOG);
        entry.append(slug.as_str());
        entry.append(SM_POST_LASTMOD);
        entry.append(date.as_str());
        entry.append(SM_POST_CLOSE);
        let ghost prev = entries@;
        entries.push(entry);
        proof {
            lemma_str_views_push(prev, entry);
            assert(fixed + sitemap_post_entries_spec(ms.take(i + 1), base_url@) =~= (fixed
                + sitemap_post_entries_spec(ms.take(i as int), base_url@)).push(entry@));
        }
        i = i + 1;
    }
    proof {
        assert(ms.take(posts@.len() as int) =~= ms);
    }
    let joined = join_strings(&entries, "\n");
    let mut out = String::from_str(SM_HEAD);
    out.append(joined.as_str());
    out.append(SM_TAIL);
    out
}

/// Crawler policy chunks: general access allowed, the sitemap named, build
/// directories and compiled-binary assets excluded.
pub const ROBOTS_HEAD: &'static str = "User-agent: *\nAllow: /\nSitemap: ";

pub const ROBOTS_TAIL: &'static str =
    "/sitemap.xml\nAllow: /blog/*.html\nAllow: /blog\nDisallow: /dist/\nDisallow: /target/\nDisallow: /*.wasm\nDisallow: /*.js.map";

/// The whole crawler policy document.
pub open spec fn robots_spec(base: Seq<char>) -> Seq<char> {
    ROBOTS_HEAD@ + base + ROBOTS_TAIL@
}

/// Emits the crawler policy document.
pub fn generate_robots(base_url: &str) -> (r: String)
    ensures
        r@ == robots_spec(base_url@),
{
    let mut out = String::from_str(ROBOTS_HEAD);
    out.append(base_url);
    out.append(ROBOTS_TAIL);
    out
}

} // verus!
