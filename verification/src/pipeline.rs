//! The build pipeline.
//!
//! One build ingests every recognized content file of the content directory
//! plus the distinguished root document, validates and renders each into a
//! content record, and emits all artifacts from that one record snapshot: the
//! generated typed table, one static page per post, the blog index, the
//! sitemap, the crawler policy, and the root entry page. A malformed ordinary
//! file is logged and skipped; a malformed root document or a duplicate slug
//! aborts the build.

use vstd::prelude::*;
use crate::codegen::{CodeGen, ArrayView, array_views, array_code_spec, code_spec,
    find_struct_spec, instance_spec, lemma_instance_lines_total, lemma_instances_total,
    lemma_arrays_code_total, struct_def_views};
use crate::fields::lemma_pairs_lookup_map;
use crate::frontmatter::{FieldValView, front_fields_of, front_body_of, parse_front_matter};
use crate::markdown::{markdown_html_of, post_extensions, root_extensions, render_post_markdown,
    render_root_markdown};
use crate::pages::{scalar_field, list_field, get_scalar, post_page_spec, root_page_spec,
    blog_index_spec, generate_html_file, generate_blog_index_html, generate_index_html};
use crate::record::{PostData, PostValueView, RecordError, record_views, required_string,
    optional_string, optional_list};
use crate::schema::{FieldDef, FieldDefView, FieldType, StructDef, StructDefView};
use crate::sitemap::{sitemap_spec, robots_spec, generate_sitemap, generate_robots};
use crate::strutil::{str_views, lemma_str_views_push, contains_string};
use vstd::pervasive::unreached;
use vstd::string::{StrSliceExecFns, StringExecFns};

verus! {

/// Whether a directory entry name is recognized as a content file: it ends
/// in `.md` and has a non-empty stem.
pub open spec fn is_content_file(name: Seq<char>) -> bool {
    name.len() >= 4 && name.skip(name.len() - 3) == ".md"@
}

/// The slug a content file's name derives: the name with the extension cut
/// off.
pub open spec fn slug_of(name: Seq<char>) -> Seq<char> {
    name.take(name.len() - 3)
}

/// Distinct content files derive distinct slugs.
pub proof fn lemma_distinct_files_distinct_slugs(n1: Seq<char>, n2: Seq<char>)
    requires
        is_content_file(n1),
        is_content_file(n2),
        n1 != n2,
    ensures
        slug_of(n1) != slug_of(n2),
{
    if slug_of(n1) == slug_of(n2) {
        assert(slug_of(n1).len() == n1.len() - 3);
        assert(slug_of(n2).len() == n2.len() - 3);
        assert(n1.len() == n2.len());
        assert(n1 =~= slug_of(n1) + n1.skip(n1.len() - 3));
        assert(n2 =~= slug_of(n2) + n2.skip(n2.len() - 3));
        assert(n1 == n2);
    }
}

/// Recognizes a content file name and derives its slug.
pub fn content_file_slug(name: &str) -> (r: Option<String>)
    ensures
        match r {
            Some(s) => is_content_file(name@) && s@ == slug_of(name@),
            None => !is_content_file(name@),
        },
{
    let n = name.unicode_len();
    if n < 4 {
        proof {
            assert(!is_content_file(name@));
        }
        return None;
    }
    if name.get_char(n - 3) == '.' && name.get_char(n - 2) == 'm' && name.get_char(n - 1) == 'd' {
        proof {
            reveal_strlit(".md");
            assert(name@.skip(n - 3 as int) =~= ".md"@);
        }
        let stem = name.substring_char(0, n - 3);
        Some(stem.to_owned())
    } else {
        proof {
            reveal_strlit(".md");
            if name@.skip(n - 3 as int) == ".md"@ {
                assert(name@.skip(n - 3 as int)[0] == name@[n - 3 as int]);
                assert(name@.skip(n - 3 as int)[1] == name@[n - 2 as int]);
                assert(name@.skip(n - 3 as int)[2] == name@[n - 1 as int]);
            }
        }
        None
    }
}

/// The scalar a required front-matter field yields: absence or any other
/// shape is a validation failure.
pub open spec fn required_string_spec(fm: Map<Seq<char>, FieldValView>, k: Seq<char>) -> Option<
    Seq<char>,
> {
    if fm.contains_key(k) {
        match fm[k] {
            FieldValView::Str(s) => Some(s),
            _ => None,
        }
    } else {
        None
    }
}

/// The scalar an optional front-matter field yields: absent or null defaults
/// to the empty string; a list or other shape is a validation failure.
pub open spec fn optional_string_spec(fm: Map<Seq<char>, FieldValView>, k: Seq<char>) -> Option<
    Seq<char>,
> {
    if fm.contains_key(k) {
        match fm[k] {
            FieldValView::Str(s) => Some(s),
            FieldValView::Null => Some(Seq::empty()),
            _ => None,
        }
    } else {
        Some(Seq::empty())
    }
}

/// The list an optional front-matter field yields: absence defaults to the
/// empty list; any scalar, null or other shape is a validation failure.
pub open spec fn optional_list_spec(fm: Map<Seq<char>, FieldValView>, k: Seq<char>) -> Option<
    Seq<Seq<char>>,
> {
    if fm.contains_key(k) {
        match fm[k] {
            FieldValView::List(v) => Some(v),
            _ => None,
        }
    } else {
        Some(Seq::empty())
    }
}

/// The record an ordinary content file's validated front matter assembles,
/// or `None` when a field fails validation.
pub open spec fn post_fm_record(
    slug: Seq<char>,
    fm: Map<Seq<char>, FieldValView>,
    body: Seq<char>,
) -> Option<Map<Seq<char>, PostValueView>> {
    if required_string_spec(fm, "title"@) is None || required_string_spec(fm, "date"@) is None
        || optional_string_spec(fm, "summary"@) is None || optional_list_spec(fm, "tags"@) is None {
        None
    } else {
        Some(
            Map::<Seq<char>, PostValueView>::empty().insert(
                "slug"@,
                PostValueView::Str(slug),
            ).insert("title"@, PostValueView::Str(required_string_spec(fm, "title"@)->Some_0)).insert(
                "date"@,
                PostValueView::Str(required_string_spec(fm, "date"@)->Some_0),
            ).insert(
                "summary"@,
                PostValueView::Str(optional_string_spec(fm, "summary"@)->Some_0),
            ).insert(
                "body"@,
                PostValueView::Str(markdown_html_of(post_extensions(), body)),
            ).insert(
                "tags"@,
                PostValueView::StrSlice(optional_list_spec(fm, "tags"@)->Some_0),
            ).insert("raw_content"@, PostValueView::Str(body)),
        )
    }
}

/// The record an ordinary content file yields, or `None` when it has no
/// front-matter block or a field fails validation.
pub open spec fn post_record_spec(slug: Seq<char>, text: Seq<char>) -> Option<
    Map<Seq<char>, PostValueView>,
> {
    match front_fields_of(text) {
        Some(fm) => post_fm_record(slug, fm, front_body_of(text)),
        None => None,
    }
}

/// The field an ordinary content file's validation fails on first: the
/// required title and date, then summary, then tags.
pub open spec fn post_failed_field(fm: Map<Seq<char>, FieldValView>) -> Seq<char> {
    if required_string_spec(fm, "title"@) is None {
        "title"@
    } else if required_string_spec(fm, "date"@) is None {
        "date"@
    } else if optional_string_spec(fm, "summary"@) is None {
        "summary"@
    } else {
        "tags"@
    }
}

/// The names of an ordinary record's fields differ pairwise.
#[verifier::spinoff_prover]
pub proof fn lemma_post_keys_distinct()
    ensures
        "slug"@.len() == 4,
        "title"@.len() == 5,
        "date"@.len() == 4,
        "summary"@.len() == 7,
        "body"@.len() == 4,
        "tags"@.len() == 4,
        "raw_content"@.len() == 11,
        "slug"@[0] == 's',
        "date"@[0] == 'd',
        "body"@[0] == 'b',
        "tags"@[0] == 't',
        "slug"@ != "title"@ && "slug"@ != "date"@ && "slug"@ != "summary"@ && "slug"@ != "body"@
            && "slug"@ != "tags"@ && "slug"@ != "raw_content"@,
        "title"@ != "date"@ && "title"@ != "summary"@ && "title"@ != "body"@ && "title"@
            != "tags"@ && "title"@ != "raw_content"@,
        "date"@ != "summary"@ && "date"@ != "body"@ && "date"@ != "tags"@ && "date"@
            != "raw_content"@,
        "summary"@ != "body"@ && "summary"@ != "tags"@ && "summary"@ != "raw_content"@,
        "body"@ != "tags"@ && "body"@ != "raw_content"@,
        "tags"@ != "raw_content"@,
{
    reveal_strlit("slug");
    reveal_strlit("title");
    reveal_strlit("date");
    reveal_strlit("summary");
    reveal_strlit("body");
    reveal_strlit("tags");
    reveal_strlit("raw_content");
    assert("slug"@.len() == 4);
    assert("title"@.len() == 5);
    assert("date"@.len() == 4);
    assert("summary"@.len() == 7);
    assert("body"@.len() == 4);
    assert("tags"@.len() == 4);
    assert("raw_content"@.len() == 11);
    assert("slug"@[0] == 's');
    assert("date"@[0] == 'd');
    assert("body"@[0] == 'b');
    assert("tags"@[0] == 't');
}

/// Loads one ordinary content file that was already read: splits the front
/// matter, validates the fields with their defaults, renders the body under
/// the minimal extension set, and assembles the content record.
pub fn process_markdown_file(slug: &str, content: &str) -> (r: Result<PostData, RecordError>)
    ensures
        match r {
            Ok(d) => post_record_spec(slug@, content@) == Some(d@),
            Err(e) => post_record_spec(slug@, content@) is None && match e {
                RecordError::NoFrontMatter => front_fields_of(content@) is None,
                RecordError::BadField { field } => front_fields_of(content@) matches Some(fm)
                    && field@ == post_failed_field(fm) && post_fm_record(
                    slug@,
                    fm,
                    front_body_of(content@),
                ) is None,
            },
        },
{
    let parsed = parse_front_matter(content);
    let (fields, body) = match parsed {
        Some(p) => p,
        None => {
            return Err(RecordError::NoFrontMatter);
        },
    };
    let ghost fm = front_fields_of(content@)->Some_0;
    proof {
        lemma_pairs_lookup_map(fields@, "title"@);
        lemma_pairs_lookup_map(fields@, "date"@);
        lemma_pairs_lookup_map(fields@, "summary"@);
        lemma_pairs_lookup_map(fields@, "tags"@);
    }
    let title = match required_string(&fields, "title") {
        Ok(t) => t,
        Err(e) => {
            return Err(e);
        },
    };
    let date = match required_string(&fields, "date") {
        Ok(t) => t,
        Err(e) => {
            return Err(e);
        },
    };
    let summary = match optional_string(&fields, "summary") {
        Ok(t) => t,
        Err(e) => {
            return Err(e);
        },
    };
    let tags = match optional_list(&fields, "tags") {
        Ok(t) => t,
        Err(e) => {
            return Err(e);
        },
    };
    let html = render_post_markdown(body.as_str());
    proof {
        lemma_post_keys_distinct();
        if tags@.len() == 0 {
            assert(crate::strutil::str_views(tags@) =~= Seq::<Seq<char>>::empty());
        }
    }
    let d = PostData::new().set_str("slug", slug.to_owned()).set_str("title", title).set_str(
        "date",
        date,
    ).set_str("summary", summary).set_str("body", html).set_str_slice("tags", tags).set_str(
        "raw_content",
        body,
    );
    proof {
        assert(d@ == post_fm_record(slug@, fm, front_body_of(content@))->Some_0);
    }
    Ok(d)
}

/// The record the root content file's validated front matter assembles, or
/// `None` when a field fails validation. The root record carries the full
/// SEO and social metadata set on top of the ordinary fields, each extended
/// field defaulting to the empty string when absent.
pub open spec fn root_fm_record(fm: Map<Seq<char>, FieldValView>, body: Seq<char>) -> Option<
    Map<Seq<char>, PostValueView>,
> {
    if required_string_spec(fm, "title"@) is None || required_string_spec(fm, "date"@) is None
        || optional_string_spec(fm, "summary"@) is None || optional_list_spec(fm, "tags"@) is None
        || optional_string_spec(fm, "description"@) is None || optional_string_spec(
        fm,
        "keywords"@,
    ) is None || optional_string_spec(fm, "author"@) is None || optional_string_spec(
        fm,
        "og_title"@,
    ) is None || optional_string_spec(fm, "og_description"@) is None || optional_string_spec(
        fm,
        "og_type"@,
    ) is None || optional_string_spec(fm, "og_url"@) is None || optional_string_spec(
        fm,
        "og_site_name"@,
    ) is None || optional_string_spec(fm, "twitter_card"@) is None || optional_string_spec(
        fm,
        "twitter_title"@,
    ) is None || optional_string_spec(fm, "twitter_description"@) is None || optional_string_spec(
        fm,
        "canonical_url"@,
    ) is None {
        None
    } else {
        Some(
            Map::<Seq<char>, PostValueView>::empty().insert(
                "slug"@,
                PostValueView::Str("about"@),
            ).insert("title"@, PostValueView::Str(required_string_spec(fm, "title"@)->Some_0)).insert(
                "date"@,
                PostValueView::Str(required_string_spec(fm, "date"@)->Some_0),
            ).insert(
                "summary"@,
                PostValueView::Str(optional_string_spec(fm, "summary"@)->Some_0),
            ).insert(
                "body"@,
                PostValueView::Str(markdown_html_of(root_extensions(), body)),
            ).insert(
                "tags"@,
                PostValueView::StrSlice(optional_list_spec(fm, "tags"@)->Some_0),
            ).insert("raw_content"@, PostValueView::Str(body)).insert(
                "description"@,
                PostValueView::Str(optional_string_spec(fm, "description"@)->Some_0),
            ).insert(
                "keywords"@,
                PostValueView::Str(optional_string_spec(fm, "keywords"@)->Some_0),
            ).insert(
                "author"@,
                PostValueView::Str(optional_string_spec(fm, "author"@)->Some_0),
            ).insert(
                "og_title"@,
                PostValueView::Str(optional_string_spec(fm, "og_title"@)->Some_0),
            ).insert(
                "og_description"@,
                PostValueView::Str(optional_string_spec(fm, "og_description"@)->Some_0),
            ).insert(
                "og_type"@,
                PostValueView::Str(optional_string_spec(fm, "og_type"@)->Some_0),
            ).insert(
                "og_url"@,
                PostValueView::Str(optional_string_spec(fm, "og_url"@)->Some_0),
            ).insert(
                "og_site_name"@,
                PostValueView::Str(optional_string_spec(fm, "og_site_name"@)->Some_0),
            ).insert(
                "twitter_card"@,
                PostValueView::Str(optional_string_spec(fm, "twitter_card"@)->Some_0),
            ).insert(
                "twitter_title"@,
                PostValueView::Str(optional_string_spec(fm, "twitter_title"@)->Some_0),
            ).insert(
                "twitter_description"@,
                PostValueView::Str(optional_string_spec(fm, "twitter_description"@)->Some_0),
            ).insert(
                "canonical_url"@,
                PostValueView::Str(optional_string_spec(fm, "canonical_url"@)->Some_0),
            ),
        )
    }
}

/// The record the root content file yields, or `None` when it has no
/// front-matter block or a field fails validation.
pub open spec fn root_record_spec(text: Seq<char>) -> Option<Map<Seq<char>, PostValueView>> {
    match front_fields_of(text) {
        Some(fm) => root_fm_record(fm, front_body_of(text)),
        None => None,
    }
}

/// The field the root content file's validation fails on first.
pub open spec fn root_failed_field(fm: Map<Seq<char>, FieldValView>) -> Seq<char> {
    if required_string_spec(fm, "title"@) is None {
        "title"@
    } else if required_string_spec(fm, "date"@) is None {
        "date"@
    } else if optional_string_spec(fm, "summary"@) is None {
        "summary"@
    } else if optional_list_spec(fm, "tags"@) is None {
        "tags"@
    } else if optional_string_spec(fm, "description"@) is None {
        "description"@
    } else if optional_string_spec(fm, "keywords"@) is None {
        "keywords"@
    } else if optional_string_spec(fm, "author"@) is None {
        "author"@
    } else if optional_string_spec(fm, "og_title"@) is None {
        "og_title"@
    } else if optional_string_spec(fm, "og_description"@) is None {
        "og_description"@
    } else if optional_string_spec(fm, "og_type"@) is None {
        "og_type"@
    } else if optional_string_spec(fm, "og_url"@) is None {
        "og_url"@
    } else if optional_string_spec(fm, "og_site_name"@) is None {
        "og_site_name"@
    } else if optional_string_spec(fm, "twitter_card"@) is None {
        "twitter_card"@
    } else if optional_string_spec(fm, "twitter_title"@) is None {
        "twitter_title"@
    } else if optional_string_spec(fm, "twitter_description"@) is None {
        "twitter_description"@
    } else {
        "canonical_url"@
    }
}

/// The names of a root record's fields differ pairwise.
#[verifier::spinoff_prover]
pub proof fn lemma_root_keys_distinct()
    ensures
        "slug"@.len() == 4,
        "title"@.len() == 5,
        "date"@.len() == 4,
        "summary"@.len() == 7,
        "body"@.len() == 4,
        "tags"@.len() == 4,
        "raw_content"@.len() == 11,
        "description"@.len() == 11,
        "keywords"@.len() == 8,
        "author"@.len() == 6,
        "og_title"@.len() == 8,
        "og_description"@.len() == 14,
        "og_type"@.len() == 7,
        "og_url"@.len() == 6,
        "og_site_name"@.len() == 12,
        "twitter_card"@.len() == 12,
        "twitter_title"@.len() == 13,
        "twitter_description"@.len() == 19,
        "canonical_url"@.len() == 13,
        "slug"@[0] == 's',
        "date"@[0] == 'd',
        "body"@[0] == 'b',
        "tags"@[0] == 't',
        "summary"@[0] == 's',
        "og_type"@[0] == 'o',
        "raw_content"@[0] == 'r',
        "description"@[0] == 'd',
        "keywords"@[0] == 'k',
        "og_title"@[0] == 'o',
        "author"@[0] == 'a',
        "og_url"@[0] == 'o',
        "og_site_name"@[0] == 'o',
        "twitter_card"@[0] == 't',
        "twitter_title"@[0] == 't',
        "canonical_url"@[0] == 'c',
{
    reveal_strlit("slug");
    reveal_strlit("title");
    reveal_strlit("date");
    reveal_strlit("summary");
    reveal_strlit("body");
    reveal_strlit("tags");
    reveal_strlit("raw_content");
    reveal_strlit("description");
    reveal_strlit("keywords");
    reveal_strlit("author");
    reveal_strlit("og_title");
    reveal_strlit("og_description");
    reveal_strlit("og_type");
    reveal_strlit("og_url");
    reveal_strlit("og_site_name");
    reveal_strlit("twitter_card");
    reveal_strlit("twitter_title");
    reveal_strlit("twitter_description");
    reveal_strlit("canonical_url");
}

/// Loads the root content file, which doubles as the site entry page: the
/// same splitting and validation as an ordinary file, the full extension set
/// for rendering, the fixed slug, and the extended metadata fields with their
/// defaults. Its failure is meant to abort the build.
#[verifier::rlimit(100)]
pub fn process_about_file(content: &str) -> (r: Result<PostData, RecordError>)
    ensures
        match r {
            Ok(d) => root_record_spec(content@) == Some(d@),
            Err(e) => root_record_spec(content@) is None && match e {
                RecordError::NoFrontMatter => front_fields_of(content@) is None,
                RecordError::BadField { field } => front_fields_of(content@) matches Some(fm)
                    && field@ == root_failed_field(fm) && root_fm_record(
                    fm,
                    front_body_of(content@),
                ) is None,
            },
        },
{
    let parsed = parse_front_matter(content);
    let (fields, body) = match parsed {
        Some(p) => p,
        None => {
            return Err(RecordError::NoFrontMatter);
        },
    };
    let ghost fm = front_fields_of(content@)->Some_0;
    proof {
        lemma_pairs_lookup_map(fields@, "title"@);
        lemma_pairs_lookup_map(fields@, "date"@);
        lemma_pairs_lookup_map(fields@, "summary"@);
        lemma_pairs_lookup_map(fields@, "tags"@);
        lemma_pairs_lookup_map(fields@, "description"@);
        lemma_pairs_lookup_map(fields@, "keywords"@);
        lemma_pairs_lookup_map(fields@, "author"@);
        lemma_pairs_lookup_map(fields@, "og_title"@);
        lemma_pairs_lookup_map(fields@, "og_description"@);
        lemma_pairs_lookup_map(fields@, "og_type"@);
        lemma_pairs_lookup_map(fields@, "og_url"@);
        lemma_pairs_lookup_map(fields@, "og_site_name"@);
        lemma_pairs_lookup_map(fields@, "twitter_card"@);
        lemma_pairs_lookup_map(fields@, "twitter_title"@);
        lemma_pairs_lookup_map(fields@, "twitter_description"@);
        lemma_pairs_lookup_map(fields@, "canonical_url"@);
    }
    let title = match required_string(&fields, "title") {
        Ok(t) => t,
        Err(e) => {
            return Err(e);
        },
    };
    let date = match required_string(&fields, "date") {
        Ok(t) => t,
        Err(e) => {
            return Err(e);
        },
    };
    let summary = match optional_string(&fields, "summary") {
        Ok(t) => t,
        Err(e) => {
            return Err(e);
        },
    };
    let tags = match optional_list(&fields, "tags") {
        Ok(t) => t,
        Err(e) => {
            return Err(e);
        },
    };
    let description = match optional_string(&fields, "description") {
        Ok(t) => t,
        Err(e) => {
            return Err(e);
        },
    };
    let keywords = match optional_string(&fields, "keywords") {
        Ok(t) => t,
        Err(e) => {
            return Err(e);
        },
    };
    let author = match optional_string(&fields, "author") {
        Ok(t) => t,
        Err(e) => {
            return Err(e);
        },
    };
    let og_title = match optional_string(&fields, "og_title") {
        Ok(t) => t,
        Err(e) => {
            return Err(e);
        },
    };
    let og_description = match optional_string(&fields, "og_description") {
        Ok(t) => t,
        Err(e) => {
            return Err(e);
        },
    };
    let og_type = match optional_string(&fields, "og_type") {
        Ok(t) => t,
        Err(e) => {
            return Err(e);
        },
    };
    let og_url = match optional_string(&fields, "og_url") {
        Ok(t) => t,
        Err(e) => {
            return Err(e);
        },
    };
    let og_site_name = match optional_string(&fields, "og_site_name") {
        Ok(t) => t,
        Err(e) => {
            return Err(e);
        },
    };
    let twitter_card = match optional_string(&fields, "twitter_card") {
        Ok(t) => t,
        Err(e) => {
            return Err(e);
        },
    };
    let twitter_title = match optional_string(&fields, "twitter_title") {
        Ok(t) => t,
        Err(e) => {
            return Err(e);
        },
    };
    let twitter_description = match optional_string(&fields, "twitter_description") {
        Ok(t) => t,
        Err(e) => {
            return Err(e);
        },
    };
    let canonical_url = match optional_string(&fields, "canonical_url") {
        Ok(t) => t,
        Err(e) => {
            return Err(e);
        },
    };
    let html = render_root_markdown(body.as_str());
    proof {
        lemma_root_keys_distinct();
        if tags@.len() == 0 {
            assert(crate::strutil::str_views(tags@) =~= Seq::<Seq<char>>::empty());
        }
    }
    let d = PostData::new().set_str("slug", "about".to_owned()).set_str("title", title).set_str(
        "date",
        date,
    ).set_str("summary", summary).set_str("body", html).set_str_slice("tags", tags).set_str(
        "raw_content",
        body,
    ).set_str("description", description).set_str("keywords", keywords).set_str(
        "author",
        author,
    ).set_str("og_title", og_title).set_str("og_description", og_description).set_str(
        "og_type",
        og_type,
    ).set_str("og_url", og_url).set_str("og_site_name", og_site_name).set_str(
        "twitter_card",
        twitter_card,
    ).set_str("twitter_title", twitter_title).set_str(
        "twitter_description",
        twitter_description,
    ).set_str("canonical_url", canonical_url);
    proof {
        assert(d@ == root_fm_record(fm, front_body_of(content@))->Some_0);
    }
    Ok(d)
}

/// Well-formedness of an assembled ordinary record: every field the
/// emitters and the generator read is present in the expected shape.
pub open spec fn post_record_wf(m: Map<Seq<char>, PostValueView>) -> bool {
    &&& scalar_field(m, "slug"@) is Some
    &&& scalar_field(m, "title"@) is Some
    &&& scalar_field(m, "date"@) is Some
    &&& scalar_field(m, "summary"@) is Some
    &&& scalar_field(m, "body"@) is Some
    &&& scalar_field(m, "raw_content"@) is Some
    &&& list_field(m, "tags"@) is Some
}

/// Well-formedness of the assembled root record: the ordinary fields plus
/// the full extended metadata set.
pub open spec fn root_record_wf(m: Map<Seq<char>, PostValueView>) -> bool {
    &&& post_record_wf(m)
    &&& scalar_field(m, "description"@) is Some
    &&& scalar_field(m, "keywords"@) is Some
    &&& scalar_field(m, "author"@) is Some
    &&& scalar_field(m, "og_title"@) is Some
    &&& scalar_field(m, "og_description"@) is Some
    &&& scalar_field(m, "og_type"@) is Some
    &&& scalar_field(m, "og_url"@) is Some
    &&& scalar_field(m, "og_site_name"@) is Some
    &&& scalar_field(m, "twitter_card"@) is Some
    &&& scalar_field(m, "twitter_title"@) is Some
    &&& scalar_field(m, "twitter_description"@) is Some
    &&& scalar_field(m, "canonical_url"@) is Some
}

/// An assembled ordinary record is well-formed, and carries its slug.
pub proof fn lemma_post_record_wf(
    slug: Seq<char>,
    fm: Map<Seq<char>, FieldValView>,
    body: Seq<char>,
)
    requires
        post_fm_record(slug, fm, body) is Some,
    ensures
        post_record_wf(post_fm_record(slug, fm, body)->Some_0),
        scalar_field(post_fm_record(slug, fm, body)->Some_0, "slug"@) == Some(slug),
{
    lemma_post_keys_distinct();
}

/// The assembled root record is well-formed.
#[verifier::rlimit(100)]
pub proof fn lemma_root_record_wf(fm: Map<Seq<char>, FieldValView>, body: Seq<char>)
    requires
        root_fm_record(fm, body) is Some,
    ensures
        root_record_wf(root_fm_record(fm, body)->Some_0),
{
    lemma_root_keys_distinct();
}

/// The declarative schema fields of the generated `Post` type.
pub open spec fn post_field_views() -> Seq<FieldDefView> {
    seq![
        FieldDefView {
            name: "slug"@,
            field_type: FieldType::StaticStr,
            doc: Some("URL-friendly identifier for the post"@),
        },
        FieldDefView {
            name: "title"@,
            field_type: FieldType::StaticStr,
            doc: Some("Human-readable title of the post"@),
        },
        FieldDefView {
            name: "date"@,
            field_type: FieldType::StaticStr,
            doc: Some("Publication date in YYYY-MM-DD format"@),
        },
        FieldDefView {
            name: "summary"@,
            field_type: FieldType::StaticStr,
            doc: Some("Brief description of the post content"@),
        },
        FieldDefView {
            name: "body"@,
            field_type: FieldType::StaticStr,
            doc: Some("Rendered HTML content of the post"@),
        },
        FieldDefView {
            name: "tags"@,
            field_type: FieldType::StaticStrSlice,
            doc: Some("Topic tags for categorization and search"@),
        },
        FieldDefView {
            name: "raw_content"@,
            field_type: FieldType::StaticStr,
            doc: Some("Original markdown content for full-text search"@),
        },
    ]
}

/// The declarative schema of the generated `Post` type.
pub open spec fn post_struct_view() -> StructDefView {
    StructDefView {
        name: "Post"@,
        derives: seq!["Clone"@, "Debug"@, "PartialEq"@],
        fields: post_field_views(),
    }
}

/// The declarative schema fields of the generated `About` type: the same
/// field set as `Post`, so the consumer can treat both alike.
pub open spec fn about_field_views() -> Seq<FieldDefView> {
    seq![
        FieldDefView {
            name: "slug"@,
            field_type: FieldType::StaticStr,
            doc: Some("URL-friendly identifier"@),
        },
        FieldDefView { name: "title"@, field_type: FieldType::StaticStr, doc: Some("Page title"@) },
        FieldDefView {
            name: "date"@,
            field_type: FieldType::StaticStr,
            doc: Some("Publication date"@),
        },
        FieldDefView {
            name: "summary"@,
            field_type: FieldType::StaticStr,
            doc: Some("Page description for SEO"@),
        },
        FieldDefView {
            name: "body"@,
            field_type: FieldType::StaticStr,
            doc: Some("Rendered HTML content"@),
        },
        FieldDefView {
            name: "tags"@,
            field_type: FieldType::StaticStrSlice,
            doc: Some("Topic tags"@),
        },
        FieldDefView {
            name: "raw_content"@,
            field_type: FieldType::StaticStr,
            doc: Some("Original markdown content"@),
        },
    ]
}

/// The declarative schema of the generated `About` type.
pub open spec fn about_struct_view() -> StructDefView {
    StructDefView {
        name: "About"@,
        derives: seq!["Clone"@, "Debug"@, "PartialEq"@],
        fields: about_field_views(),
    }
}

/// Builds the declarative schema of the generated `Post` type.
pub fn build_post_struct() -> (r: StructDef)
    ensures
        r@ == post_struct_view(),
{
    let r = StructDef::new("Post").add_field(
        FieldDef::new("slug", FieldType::StaticStr).with_doc(
            "URL-friendly identifier for the post",
        ),
    ).add_field(
        FieldDef::new("title", FieldType::StaticStr).with_doc("Human-readable title of the post"),
    ).add_field(
        FieldDef::new("date", FieldType::StaticStr).with_doc(
            "Publication date in YYYY-MM-DD format",
        ),
    ).add_field(
        FieldDef::new("summary", FieldType::StaticStr).with_doc(
            "Brief description of the post content",
        ),
    ).add_field(
        FieldDef::new("body", FieldType::StaticStr).with_doc("Rendered HTML content of the post"),
    ).add_field(
        FieldDef::new("tags", FieldType::StaticStrSlice).with_doc(
            "Topic tags for categorization and search",
        ),
    ).add_field(
        FieldDef::new("raw_content", FieldType::StaticStr).with_doc(
            "Original markdown content for full-text search",
        ),
    );
    proof {
        assert(r@.fields =~= post_field_views());
        assert(r@ == post_struct_view());
    }
    r
}

/// Builds the declarative schema of the generated `About` type.
pub fn build_about_struct() -> (r: StructDef)
    ensures
        r@ == about_struct_view(),
{
    let r = StructDef::new("About").add_field(
        FieldDef::new("slug", FieldType::StaticStr).with_doc("URL-friendly identifier"),
    ).add_field(FieldDef::new("title", FieldType::StaticStr).with_doc("Page title")).add_field(
        FieldDef::new("date", FieldType::StaticStr).with_doc("Publication date"),
    ).add_field(
        FieldDef::new("summary", FieldType::StaticStr).with_doc("Page description for SEO"),
    ).add_field(
        FieldDef::new("body", FieldType::StaticStr).with_doc("Rendered HTML content"),
    ).add_field(
        FieldDef::new("tags", FieldType::StaticStrSlice).with_doc("Topic tags"),
    ).add_field(
        FieldDef::new("raw_content", FieldType::StaticStr).with_doc("Original markdown content"),
    );
    proof {
        assert(r@.fields =~= about_field_views());
        assert(r@ == about_struct_view());
    }
    r
}

/// The schemas one build generates code under.
pub open spec fn build_defs_spec() -> Seq<StructDefView> {
    seq![post_struct_view(), about_struct_view()]
}

/// The static arrays one build generates: every post record under `Post`,
/// the root record alone under `About`.
pub open spec fn build_arrays_spec(
    ms: Seq<Map<Seq<char>, PostValueView>>,
    root: Map<Seq<char>, PostValueView>,
) -> Seq<ArrayView> {
    seq![
        ArrayView { name: "POSTS"@, element_type: "Post"@, data: ms },
        ArrayView { name: "ABOUT"@, element_type: "About"@, data: seq![root] },
    ]
}

/// The generated table module of one build.
pub open spec fn generated_code_spec(
    ms: Seq<Map<Seq<char>, PostValueView>>,
    root: Map<Seq<char>, PostValueView>,
) -> Seq<char> {
    code_spec(build_defs_spec(), build_arrays_spec(ms, root))->Some_0
}

/// Code generation cannot fail on a snapshot of well-formed records: every
/// declared field of both schemas is present on every record.
#[verifier::spinoff_prover]
#[verifier::rlimit(100)]
pub proof fn lemma_generated_code_total(
    ms: Seq<Map<Seq<char>, PostValueView>>,
    root: Map<Seq<char>, PostValueView>,
)
    requires
        forall|k: int| 0 <= k < ms.len() ==> post_record_wf(#[trigger] ms[k]),
        root_record_wf(root),
    ensures
        code_spec(build_defs_spec(), build_arrays_spec(ms, root)) is Some,
{
    let defs = build_defs_spec();
    let arrs = build_arrays_spec(ms, root);
    reveal_strlit("Post");
    reveal_strlit("About");
    assert("Post"@.len() == 4);
    assert("About"@.len() == 5);
    assert("Post"@ != "About"@);
    assert(find_struct_spec(defs, "Post"@) == Some(post_struct_view()));
    assert(defs.drop_first() =~= seq![about_struct_view()]);
    assert(find_struct_spec(seq![about_struct_view()], "About"@) == Some(about_struct_view()));
    assert(find_struct_spec(defs, "About"@) == Some(about_struct_view()));
    assert forall|k: int| 0 <= k < ms.len() implies (#[trigger] instance_spec(
        ms[k],
        post_struct_view(),
    )) is Some by {
        assert forall|j: int| 0 <= j < post_field_views().len() implies ms[k].contains_key(
            #[trigger] post_field_views()[j].name,
        ) by {
            assert(post_record_wf(ms[k]));
        }
        lemma_instance_lines_total(ms[k], post_field_views());
    }
    lemma_instances_total(ms, post_struct_view());
    assert forall|j: int| 0 <= j < about_field_views().len() implies root.contains_key(
        #[trigger] about_field_views()[j].name,
    ) by {
        assert(root_record_wf(root));
    }
    lemma_instance_lines_total(root, about_field_views());
    assert(instance_spec(root, about_struct_view()) is Some);
    assert forall|j: int| 0 <= j < seq![root].len() implies (#[trigger] instance_spec(
        seq![root][j],
        about_struct_view(),
    )) is Some by {
        assert(seq![root][j] == root);
    }
    lemma_instances_total(seq![root], about_struct_view());
    assert(array_code_spec(defs, arrs[0]) is Some);
    assert(array_code_spec(defs, arrs[1]) is Some);
    assert forall|j: int| 0 <= j < arrs.len() implies (#[trigger] array_code_spec(
        defs,
        arrs[j],
    )) is Some by {
        assert(j == 0 || j == 1);
    }
    lemma_arrays_code_total(defs, arrs);
}

/// Default substitution: a front-matter block that omits `summary` and
/// `tags`, but holds valid required fields, still assembles a record — never
/// a missing-field failure — and that record carries the empty string and
/// the empty list in their place.
pub proof fn lemma_default_substitution(
    slug: Seq<char>,
    fm: Map<Seq<char>, FieldValView>,
    body: Seq<char>,
)
    requires
        !fm.contains_key("summary"@),
        !fm.contains_key("tags"@),
        required_string_spec(fm, "title"@) is Some,
        required_string_spec(fm, "date"@) is Some,
    ensures
        post_fm_record(slug, fm, body) is Some,
        scalar_field(post_fm_record(slug, fm, body)->Some_0, "summary"@) == Some(
            Seq::<char>::empty(),
        ),
        list_field(post_fm_record(slug, fm, body)->Some_0, "tags"@) == Some(
            Seq::<Seq<char>>::empty(),
        ),
{
    lemma_post_keys_distinct();
}

/// The records a sequence of read files yields, in discovery order: each
/// recognized content file whose document validates contributes one record.
pub open spec fn pipeline_record_maps(files: Seq<(String, String)>) -> Seq<
    Map<Seq<char>, PostValueView>,
>
    decreases files.len(),
{
    if files.len() == 0 {
        Seq::empty()
    } else {
        let init = pipeline_record_maps(files.drop_last());
        let name = files.last().0@;
        let text = files.last().1@;
        if is_content_file(name) && post_record_spec(slug_of(name), text) is Some {
            init.push(post_record_spec(slug_of(name), text)->Some_0)
        } else {
            init
        }
    }
}

/// The warning a skipped content file is logged with.
pub open spec fn skip_warning_spec(name: Seq<char>, text: Seq<char>) -> Seq<char> {
    "failed to process "@ + name + ": "@ + (match front_fields_of(text) {
        None => "no front matter found"@,
        Some(fm) => "missing or wrong-typed field: "@ + post_failed_field(fm),
    })
}

/// The warnings of one build, in discovery order: one per recognized content
/// file whose document fails validation.
pub open spec fn warnings_spec(files: Seq<(String, String)>) -> Seq<Seq<char>>
    decreases files.len(),
{
    if files.len() == 0 {
        Seq::empty()
    } else {
        let init = warnings_spec(files.drop_last());
        let name = files.last().0@;
        let text = files.last().1@;
        if is_content_file(name) && post_record_spec(slug_of(name), text) is None {
            init.push(skip_warning_spec(name, text))
        } else {
            init
        }
    }
}

/// The slug of a well-formed record.
pub open spec fn slug_of_record(m: Map<Seq<char>, PostValueView>) -> Seq<char> {
    scalar_field(m, "slug"@)->Some_0
}

/// Whether two records of a snapshot share a slug.
pub open spec fn has_duplicate_slug(ms: Seq<Map<Seq<char>, PostValueView>>) -> bool {
    exists|i: int, j: int|
        0 <= i < j < ms.len() && slug_of_record(#[trigger] ms[i]) == slug_of_record(
            #[trigger] ms[j],
        )
}

/// The records of a processed prefix stand unchanged, at the same positions,
/// in the whole snapshot.
pub proof fn lemma_record_maps_prefix(files: Seq<(String, String)>, k: int)
    requires
        0 <= k <= files.len(),
    ensures
        pipeline_record_maps(files.take(k)).len() <= pipeline_record_maps(files).len(),
        forall|x: int|
            0 <= x < pipeline_record_maps(files.take(k)).len() ==> pipeline_record_maps(
                files.take(k),
            )[x] == pipeline_record_maps(files)[x],
    decreases files.len() - k,
{
    if k == files.len() {
        assert(files.take(k) =~= files);
    } else {
        lemma_record_maps_prefix(files, k + 1);
        assert(files.take(k + 1).drop_last() =~= files.take(k));
        let a = pipeline_record_maps(files.take(k));
        let b = pipeline_record_maps(files.take(k + 1));
        assert(b == a || b == a.push(
            post_record_spec(
                slug_of(files.take(k + 1).last().0@),
                files.take(k + 1).last().1@,
            )->Some_0,
        ));
        assert(forall|x: int| 0 <= x < a.len() ==> a[x] == b[x]);
    }
}

/// The static page of one well-formed record.
pub open spec fn post_page_of_map(m: Map<Seq<char>, PostValueView>, base: Seq<char>) -> Seq<char> {
    post_page_spec(
        scalar_field(m, "slug"@)->Some_0,
        scalar_field(m, "title"@)->Some_0,
        scalar_field(m, "date"@)->Some_0,
        scalar_field(m, "summary"@)->Some_0,
        scalar_field(m, "body"@)->Some_0,
        list_field(m, "tags"@)->Some_0,
        base,
    )
}

/// The root entry page of the well-formed root record.
pub open spec fn root_page_of_map(m: Map<Seq<char>, PostValueView>, base: Seq<char>) -> Seq<char> {
    root_page_spec(
        scalar_field(m, "title"@)->Some_0,
        scalar_field(m, "description"@)->Some_0,
        scalar_field(m, "keywords"@)->Some_0,
        scalar_field(m, "author"@)->Some_0,
        scalar_field(m, "og_title"@)->Some_0,
        scalar_field(m, "og_description"@)->Some_0,
        scalar_field(m, "og_type"@)->Some_0,
        scalar_field(m, "og_url"@)->Some_0,
        scalar_field(m, "og_site_name"@)->Some_0,
        scalar_field(m, "twitter_card"@)->Some_0,
        scalar_field(m, "twitter_title"@)->Some_0,
        scalar_field(m, "twitter_description"@)->Some_0,
        scalar_field(m, "canonical_url"@)->Some_0,
        scalar_field(m, "body"@)->Some_0,
        base,
    )
}

/// The `(slug, document)` pairs of the per-post static pages, in order.
pub open spec fn page_pairs_spec(ms: Seq<Map<Seq<char>, PostValueView>>, base: Seq<char>) -> Seq<
    (Seq<char>, Seq<char>),
> {
    ms.map_values(
        |m: Map<Seq<char>, PostValueView>| (slug_of_record(m), post_page_of_map(m, base)),
    )
}

/// The shapes of emitted page pairs.
pub open spec fn page_pair_views(ps: Seq<(String, String)>) -> Seq<(Seq<char>, Seq<char>)> {
    ps.map_values(|p: (String, String)| (p.0@, p.1@))
}

/// Everything one build emits.
pub struct BuildOutput {
    /// The generated table module source.
    pub generated_code: String,
    /// One `(slug, document)` pair per post, for `blog/{slug}.html`.
    pub post_pages: Vec<(String, String)>,
    /// The blog index document, for `blog/index.html`.
    pub blog_index_html: String,
    /// The root entry document.
    pub index_html: String,
    /// The sitemap document.
    pub sitemap_xml: String,
    /// The crawler policy document.
    pub robots_txt: String,
    /// One log line per skipped content file.
    pub warnings: Vec<String>,
}

/// Why a build aborts.
#[derive(Debug)]
pub enum BuildError {
    /// The root content file failed to load or validate.
    Root { error: RecordError },
    /// Two records derived the same slug.
    DuplicateSlug { slug: String },
}

impl BuildError {
    /// A short description for build logs.
    pub fn message(&self) -> (r: String)
        ensures
            match self {
                BuildError::Root { error } => r@ == "root content file: "@ + (match error {
                    RecordError::NoFrontMatter => "no front matter found"@,
                    RecordError::BadField { field } => "missing or wrong-typed field: "@ + field@,
                }),
                BuildError::DuplicateSlug { slug } => r@ == "duplicate slug: "@ + slug@,
            },
    {
        match self {
            BuildError::Root { error } => {
                let mut out = String::from_str("root content file: ");
                let msg = error.message();
                out.append(msg.as_str());
                out
            },
            BuildError::DuplicateSlug { slug } => {
                let mut out = String::from_str("duplicate slug: ");
                out.append(slug.as_str());
                out
            },
        }
    }
}

/// Everything a successful build emits, stated as a function of its inputs
/// alone.
pub open spec fn build_ok_spec(
    out: BuildOutput,
    files: Seq<(String, String)>,
    about: Seq<char>,
    base: Seq<char>,
) -> bool {
    let ms = pipeline_record_maps(files);
    let root = root_record_spec(about)->Some_0;
    &&& root_record_spec(about) is Some
    &&& !has_duplicate_slug(ms)
    &&& out.generated_code@ == generated_code_spec(ms, root)
    &&& page_pair_views(out.post_pages@) == page_pairs_spec(ms, base)
    &&& out.blog_index_html@ == blog_index_spec(ms, base)
    &&& out.index_html@ == root_page_of_map(root, base)
    &&& out.sitemap_xml@ == sitemap_spec(ms, base)
    &&& out.robots_txt@ == robots_spec(base)
    &&& str_views(out.warnings@) == warnings_spec(files)
}

/// Determinism of the build: two successful builds on the same inputs emit
/// byte-identical artifacts — the generated table source, every static page,
/// the blog index, the root page, the sitemap and the crawler policy.
pub proof fn lemma_build_deterministic(
    o1: BuildOutput,
    o2: BuildOutput,
    files: Seq<(String, String)>,
    about: Seq<char>,
    base: Seq<char>,
)
    requires
        build_ok_spec(o1, files, about, base),
        build_ok_spec(o2, files, about, base),
    ensures
        o1.generated_code@ == o2.generated_code@,
        page_pair_views(o1.post_pages@) == page_pair_views(o2.post_pages@),
        o1.blog_index_html@ == o2.blog_index_html@,
        o1.index_html@ == o2.index_html@,
        o1.sitemap_xml@ == o2.sitemap_xml@,
        o1.robots_txt@ == o2.robots_txt@,
        str_views(o1.warnings@) == str_views(o2.warnings@),
{
}

/// Runs one whole build on already-read inputs: the content directory's
/// entries as `(name, text)` pairs, the root document's text, and the base
/// URL. Ordinary files that fail validation are logged in the output's
/// warnings and skipped; a failing root document or a duplicate slug aborts
/// the build. Code generation and page emission cannot fail on the validated
/// snapshot, and every artifact is a function of the inputs alone.
#[verifier::rlimit(100)]
pub fn run_pipeline(files: &Vec<(String, String)>, about_content: &str, base_url: &str) -> (r:
    Result<BuildOutput, BuildError>)
    ensures
        match r {
            Ok(out) => build_ok_spec(out, files@, about_content@, base_url@),
            Err(e) => match e {
                BuildError::Root { error } => !has_duplicate_slug(pipeline_record_maps(files@))
                    && root_record_spec(about_content@) is None && match error {
                    RecordError::NoFrontMatter => front_fields_of(about_content@) is None,
                    RecordError::BadField { field } => front_fields_of(about_content@)
                        matches Some(fm) && field@ == root_failed_field(fm),
                },
                BuildError::DuplicateSlug { slug } => exists|i: int, j: int|
                    0 <= i < j < pipeline_record_maps(files@).len() && slug_of_record(
                        #[trigger] pipeline_record_maps(files@)[i],
                    ) == slug@ && slug_of_record(#[trigger] pipeline_record_maps(files@)[j])
                        == slug@,
            },
        },
{
    let mut records: Vec<PostData> = Vec::new();
    let mut slugs: Vec<String> = Vec::new();
    let mut warnings: Vec<String> = Vec::new();
    let mut i: usize = 0;
    while i < files.len()
        invariant
            i <= files@.len(),
            record_views(records@) == pipeline_record_maps(files@.take(i as int)),
            str_views(warnings@) == warnings_spec(files@.take(i as int)),
            records@.len() == slugs@.len(),
            forall|k: int|
                0 <= k < records@.len() ==> post_record_wf(#[trigger] record_views(records@)[k]),
            forall|k: int|
                0 <= k < slugs@.len() ==> (#[trigger] slugs@[k])@ == slug_of_record(
                    record_views(records@)[k],
                ),
            forall|k1: int, k2: int|
                0 <= k1 < k2 < records@.len() ==> slug_of_record(
                    #[trigger] record_views(records@)[k1],
                ) != slug_of_record(#[trigger] record_views(records@)[k2]),
        decreases files@.len() - i,
    {
        let name = &files[i].0;
        let content = &files[i].1;
        let ghost fprefix = files@.take(i as int);
        let ghost fnext = files@.take(i + 1);
        proof {
            assert(fnext.drop_last() =~= fprefix);
            assert(fnext.last() == files@[i as int]);
        }
        match content_file_slug(name.as_str()) {
            Some(slug) => {
                match process_markdown_file(slug.as_str(), content.as_str()) {
                    Ok(d) => {
                        proof {
                            assert(post_record_spec(slug@, content@) == Some(d@));
                            assert(front_fields_of(content@) is Some);
                            lemma_post_record_wf(
                                slug@,
                                front_fields_of(content@)->Some_0,
                                front_body_of(content@),
                            );
                            assert(post_record_wf(d@));
                            assert(slug_of_record(d@) == slug@);
                        }
                        if contains_string(&slugs, slug.as_str()) {
                            proof {
                                let ms_pref = record_views(records@);
                                let ms_next = pipeline_record_maps(fnext);
                                assert(ms_next == ms_pref.push(d@));
                                let kk = choose|kk: int|
                                    0 <= kk < slugs@.len() && (#[trigger] slugs@[kk])@ == slug@;
                                let ll = ms_pref.len() as int;
                                assert(slug_of_record(ms_next[kk]) == slug@);
                                assert(slug_of_record(ms_next[ll]) == slug@);
                                lemma_record_maps_prefix(files@, i + 1);
                                let full = pipeline_record_maps(files@);
                                assert(slug_of_record(full[kk]) == slug@);
                                assert(slug_of_record(full[ll]) == slug@);
                                assert(0 <= kk < ll < full.len());
                            }
                            return Err(BuildError::DuplicateSlug { slug });
                        }
                        let ghost prev_records = records@;
                        let ghost prev_slugs = slugs@;
                        slugs.push(slug);
                        records.push(d);
                        proof {
                            lemma_str_views_push(prev_slugs, slugs@.last());
                            assert(record_views(records@) =~= record_views(prev_records).push(
                                d@,
                            ));
                            assert(record_views(records@) == pipeline_record_maps(fnext));
                            assert(warnings_spec(fnext) == warnings_spec(fprefix));
                            assert forall|k1: int, k2: int|
                                0 <= k1 < k2 < records@.len() implies slug_of_record(
                                #[trigger] record_views(records@)[k1],
                            ) != slug_of_record(#[trigger] record_views(records@)[k2]) by {
                                assert(record_views(records@)[k1] == record_views(
                                    prev_records,
                                )[k1]);
                                if k2 == records@.len() - 1 {
                                    assert(record_views(records@)[k2] == d@);
                                    assert(prev_slugs[k1]@ == slug_of_record(
                                        record_views(prev_records)[k1],
                                    ));
                                    assert(prev_slugs[k1]@ != slugs@.last()@);
                                } else {
                                    assert(record_views(records@)[k2] == record_views(
                                        prev_records,
                                    )[k2]);
                                }
                            }
                        }
                    },
                    Err(e) => {
                        let mut w = String::from_str("failed to process ");
                        w.append(name.as_str());
                        w.append(": ");
                        let msg = e.message();
                        w.append(msg.as_str());
                        let ghost prev_warnings = warnings@;
                        warnings.push(w);
                        proof {
                            lemma_str_views_push(prev_warnings, w);
                            assert(w@ == skip_warning_spec(
                                files@[i as int].0@,
                                files@[i as int].1@,
                            ));
                            assert(pipeline_record_maps(fnext) == pipeline_record_maps(fprefix));
                            assert(str_views(warnings@) == warnings_spec(fnext));
                        }
                    },
                }
            },
            None => {
                proof {
                    assert(pipeline_record_maps(fnext) == pipeline_record_maps(fprefix));
                    assert(warnings_spec(fnext) == warnings_spec(fprefix));
                }
            },
        }
        i = i + 1;
    }
    proof {
        assert(files@.take(files@.len() as int) =~= files@);
    }
    let ghost ms = pipeline_record_maps(files@);
    proof {
        assert(!has_duplicate_slug(ms));
    }
    let about = match process_about_file(about_content) {
        Ok(d) => d,
        Err(error) => {
            return Err(BuildError::Root { error });
        },
    };
    let ghost root = root_record_spec(about_content@)->Some_0;
    proof {
        assert(front_fields_of(about_content@) is Some);
        lemma_root_record_wf(
            front_fields_of(about_content@)->Some_0,
            front_body_of(about_content@),
        );
        assert(root_record_wf(root));
        assert(about@ == root);
    }
    let mut post_pages: Vec<(String, String)> = Vec::new();
    let mut k: usize = 0;
    while k < records.len()
        invariant
            k <= records@.len(),
            ms == pipeline_record_maps(files@),
            record_views(records@) == ms,
            forall|x: int| 0 <= x < ms.len() ==> post_record_wf(#[trigger] ms[x]),
            page_pair_views(post_pages@) == page_pairs_spec(ms.take(k as int), base_url@),
        decreases records@.len() - k,
    {
        let post = &records[k];
        proof {
            assert(record_views(records@)[k as int] == post@);
            assert(post_record_wf(post@));
        }
        let html = match generate_html_file(post, base_url) {
            Ok(h) => h,
            Err(_) => unreached(),
        };
        let slug_owned = match get_scalar(post, "slug") {
            Ok(s) => s.clone(),
            Err(_) => unreached(),
        };
        let ghost prev = post_pages@;
        let pair = (slug_owned, html);
        let ghost pair_view = (pair.0@, pair.1@);
        post_pages.push(pair);
        proof {
            assert(page_pair_views(post_pages@) =~= page_pair_views(prev).push(pair_view));
            assert(ms.take(k + 1).drop_last() =~= ms.take(k as int));
            assert(ms.take(k + 1).last() == ms[k as int]);
            assert(page_pairs_spec(ms.take(k + 1), base_url@) =~= page_pairs_spec(
                ms.take(k as int),
                base_url@,
            ).push((slug_of_record(ms[k as int]), post_page_of_map(ms[k as int], base_url@))));
            assert(pair_view == (
                slug_of_record(ms[k as int]),
                post_page_of_map(ms[k as int], base_url@),
            ));
        }
        k = k + 1;
    }
    proof {
        assert(ms.take(records@.len() as int) =~= ms);
    }
    let blog_index_html = generate_blog_index_html(&records, base_url);
    let sitemap_xml = generate_sitemap(&records, base_url);
    let robots_txt = generate_robots(base_url);
    let index_html = match generate_index_html(&about, base_url) {
        Ok(s) => s,
        Err(_) => unreached(),
    };
    let post_struct = build_post_struct();
    let about_struct = build_about_struct();
    let mut about_vec: Vec<PostData> = Vec::new();
    about_vec.push(about);
    proof {
        assert(record_views(about_vec@) =~= seq![root]);
    }
    let codegen = CodeGen::new().add_struct(post_struct).add_struct(about_struct).add_static_array(
        "POSTS",
        "Post",
        records,
    ).add_static_array("ABOUT", "About", about_vec);
    proof {
        assert(struct_def_views(codegen.struct_defs@) =~= build_defs_spec());
        assert(array_views(codegen.static_arrays@) =~= build_arrays_spec(ms, root));
        lemma_generated_code_total(ms, root);
    }
    let generated_code = match codegen.generate_code() {
        Ok(s) => s,
        Err(_) => unreached(),
    };
    Ok(
        BuildOutput {
            generated_code,
            post_pages,
            blog_index_html,
            index_html,
            sitemap_xml,
            robots_txt,
            warnings,
        },
    )
}

} // verus!
