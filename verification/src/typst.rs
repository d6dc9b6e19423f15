//! The Typst source of a post.
//!
//! The source defines the theme as a dictionary, its keys in the order of the
//! dictionary, sets the platform's dimensions, and calls the layout with the
//! fields of the post that are given.

use crate::cli::{GenerateParams, OutputFormat};
use crate::templates::{
    MAIN_TEMPLATE_ARTICLE, MAIN_TEMPLATE_CAROUSEL, MAIN_TEMPLATE_HERO, MAIN_TEMPLATE_QUOTE,
};
use crate::text::{
    ends_with, find_from, has_suffix, index_of, lemma_index_of, lemma_text_less_irreflexive,
    lemma_text_less_total, lemma_text_less_transitive, less, replace, replaced, same_text,
    split_at, text_less, trim_between, trimmed,
};
use crate::themes::Theme;
use vstd::prelude::*;
use vstd::string::*;

verus! {

/// The first lines of every source.
pub const HEADER: &'static str =
    "// Auto-generado por rrss-cli-rs\n#import \"@local/rrss:0.1.0\": *\n\n#let t = (";

/// The accent that stands for the accent of the theme.
pub const THEME_ACCENT: &'static str = "theme";

/// Whether the keys are those of the theme, each once, in the order of the
/// dictionary.
pub open spec fn is_sorted_keys(keys: Seq<Seq<char>>, theme: Map<Seq<char>, Seq<char>>) -> bool {
    &&& forall|i: int, j: int| 0 <= i < j < keys.len() ==> text_less(keys[i], keys[j])
    &&& forall|k: Seq<char>| theme.contains_key(k) <==> keys.contains(k)
}

proof fn lemma_last_is_greatest(keys: Seq<Seq<char>>, theme: Map<Seq<char>, Seq<char>>, k: Seq<char>)
    requires
        is_sorted_keys(keys, theme),
        theme.contains_key(k),
    ensures
        keys.len() > 0,
        k == keys.last() || text_less(k, keys.last()),
{
    assert(keys.contains(k));
    let p = choose|p: int| 0 <= p < keys.len() && keys[p] == k;
    if p < keys.len() - 1 {
        assert(text_less(keys[p], keys[keys.len() - 1]));
    }
}

/// A theme has one list of its keys in the order of the dictionary.
pub proof fn lemma_sorted_keys_unique(
    a: Seq<Seq<char>>,
    b: Seq<Seq<char>>,
    theme: Map<Seq<char>, Seq<char>>,
)
    requires
        is_sorted_keys(a, theme),
        is_sorted_keys(b, theme),
    ensures
        a == b,
    decreases a.len(),
{
    if a.len() == 0 {
        if b.len() > 0 {
            assert(b.contains(b[0]));
            assert(a.contains(b[0]));
        }
        assert(a =~= b);
    } else {
        let top = a.last();
        assert(a.contains(a[a.len() - 1]));
        lemma_last_is_greatest(b, theme, top);
        assert(b.contains(b[b.len() - 1]));
        lemma_last_is_greatest(a, theme, b.last());
        if top != b.last() {
            lemma_text_less_transitive(top, b.last(), top);
            lemma_text_less_irreflexive(top);
        }
        let rest = theme.remove(top);
        let a0 = a.drop_last();
        let b0 = b.drop_last();
        assert forall|k: Seq<char>| rest.contains_key(k) <==> a0.contains(k) by {
            lemma_text_less_irreflexive(top);
            if rest.contains_key(k) {
                assert(a.contains(k));
                let p = choose|p: int| 0 <= p < a.len() && a[p] == k;
                assert(a0[p] == k);
            }
            if a0.contains(k) {
                let p = choose|p: int| 0 <= p < a0.len() && a0[p] == k;
                assert(a[p] == k);
                assert(text_less(a[p], a[a.len() - 1]));
                assert(a.contains(k));
            }
        }
        assert forall|k: Seq<char>| rest.contains_key(k) <==> b0.contains(k) by {
            lemma_text_less_irreflexive(top);
            if rest.contains_key(k) {
                assert(b.contains(k));
                let p = choose|p: int| 0 <= p < b.len() && b[p] == k;
                assert(b0[p] == k);
            }
            if b0.contains(k) {
                let p = choose|p: int| 0 <= p < b0.len() && b0[p] == k;
                assert(b[p] == k);
                assert(text_less(b[p], b[b.len() - 1]));
                assert(b.contains(k));
            }
        }
        assert forall|i: int, j: int| 0 <= i < j < a0.len() implies text_less(a0[i], a0[j]) by {
            assert(text_less(a[i], a[j]));
        }
        assert forall|i: int, j: int| 0 <= i < j < b0.len() implies text_less(b0[i], b0[j]) by {
            assert(text_less(b[i], b[j]));
        }
        lemma_sorted_keys_unique(a0, b0, rest);
        assert(a =~= a0.push(top));
        assert(b =~= b0.push(top));
    }
}

/// The keys of a theme at the places that an order lists.
pub open spec fn keys_in_order(theme: &Theme, order: Seq<usize>) -> Seq<Seq<char>> {
    Seq::new(order.len(), |p: int| theme.keys()[order[p] as int])
}

/// The places of the keys of a theme, in the order of the dictionary.
pub fn sorted_keys(theme: &Theme) -> (order: Vec<usize>)
    ensures
        order@.len() == theme.keys().len(),
        forall|p: int| 0 <= p < order@.len() ==> order@[p] < theme.keys().len(),
        is_sorted_keys(keys_in_order(theme, order@), theme@),
{
    let n: usize = theme.len();
    let mut order: Vec<usize> = Vec::new();
    let mut m: usize = 0;
    let ghost keys = theme.keys();
    while m < n
        invariant
            m <= n,
            n == keys.len(),
            keys == theme.keys(),
            keys.no_duplicates(),
            order@.len() == m,
            forall|p: int| 0 <= p < m ==> order@[p] < m,
            forall|j: usize| j < m ==> order@.contains(j),
            forall|p: int, q: int|
                0 <= p < q < m ==> text_less(
                    #[trigger] keys[order@[p] as int],
                    #[trigger] keys[order@[q] as int],
                ),
        decreases n - m,
    {
        let key = theme.key_at(m);
        let mut pos: usize = 0;
        while pos < order.len() && !less(key.as_str(), theme.key_at(order[pos]).as_str())
            invariant
                pos <= order@.len(),
                order@.len() == m,
                m < n,
                n == keys.len(),
                keys == theme.keys(),
                keys.no_duplicates(),
                key@ == keys[m as int],
                forall|p: int| 0 <= p < m ==> order@[p] < m,
                forall|p: int| 0 <= p < pos ==> text_less(#[trigger] keys[order@[p] as int], key@),
            decreases order@.len() - pos,
        {
            proof {
                let other = keys[order@[pos as int] as int];
                lemma_text_less_total(key@, other);
            }
            pos += 1;
        }
        let ghost before = order@;
        order.insert(pos, m);
        proof {
            let after = order@;
            assert forall|p: int, q: int| 0 <= p < q < m + 1 implies text_less(
                #[trigger] keys[after[p] as int],
                #[trigger] keys[after[q] as int],
            ) by {
                if q < pos {
                    assert(after[p] == before[p] && after[q] == before[q]);
                } else if q == pos {
                    assert(after[p] == before[p]);
                } else if p == pos {
                    assert(after[q] == before[q - 1]);
                    if q - 1 > pos {
                        lemma_text_less_transitive(
                            key@,
                            keys[before[pos as int] as int],
                            keys[before[q - 1] as int],
                        );
                    }
                } else if p < pos {
                    assert(after[p] == before[p] && after[q] == before[q - 1]);
                } else {
                    assert(after[p] == before[p - 1] && after[q] == before[q - 1]);
                }
            }
            assert forall|j: usize| j < m + 1 implies after.contains(j) by {
                if j == m {
                    assert(after[pos as int] == m);
                } else {
                    assert(before.contains(j));
                    let p = choose|p: int| 0 <= p < before.len() && before[p] == j;
                    if p < pos {
                        assert(after[p] == j);
                    } else {
                        assert(after[p + 1] == j);
                    }
                }
            }
        }
        m += 1;
    }
    proof {
        let listed = keys_in_order(theme, order@);
        theme.lemma_keys_are_domain();
        assert forall|k: Seq<char>| theme@.contains_key(k) <==> listed.contains(k) by {
            if theme@.contains_key(k) {
                assert(keys.contains(k));
                let j = choose|j: int| 0 <= j < keys.len() && keys[j] == k;
                assert(0 <= j < n);
                assert(order@.contains(j as usize));
                let p = choose|p: int| 0 <= p < order@.len() && order@[p] == j as usize;
                assert(listed[p] == k);
            }
            if listed.contains(k) {
                let p = choose|p: int| 0 <= p < listed.len() && listed[p] == k;
                assert(keys[order@[p] as int] == k);
                assert(keys.contains(k));
            }
        }
    }
    order
}

/// One entry of the theme's dictionary. The accent of the post stands in for
/// that of the theme, unless it is `theme`.
pub open spec fn entry(key: Seq<char>, value: Seq<char>, accent: Seq<char>) -> Seq<char> {
    key + ": rgb(\""@ + (if key == "accent"@ && accent != THEME_ACCENT@ {
        accent
    } else {
        value
    }) + "\"), "@
}

/// The entries of the theme's dictionary for the keys, in their order.
pub open spec fn entries(
    keys: Seq<Seq<char>>,
    theme: Map<Seq<char>, Seq<char>>,
    accent: Seq<char>,
) -> Seq<char>
    decreases keys.len(),
{
    if keys.len() == 0 {
        Seq::empty()
    } else {
        entries(keys.drop_last(), theme, accent) + entry(keys.last(), theme[keys.last()], accent)
    }
}

/// A value between two texts.
pub open spec fn field(before: Seq<char>, value: Seq<char>, after: Seq<char>) -> Seq<char> {
    before + value + after
}

/// A value between two texts, where there is a value.
pub open spec fn optional_field(before: Seq<char>, value: Option<String>, after: Seq<char>) -> Seq<
    char,
> {
    match value {
        Some(v) => field(before, v@, after),
        None => Seq::empty(),
    }
}

/// A value between two texts, where the value is not empty.
pub open spec fn nonempty_field(before: Seq<char>, value: Seq<char>, after: Seq<char>) -> Seq<char> {
    if value.len() == 0 {
        Seq::empty()
    } else {
        field(before, value, after)
    }
}

/// The line of an asset, where there is one: an SVG file is recoloured, any
/// other file is placed as an image.
pub open spec fn asset_field(
    svg_before: Seq<char>,
    svg_after: Seq<char>,
    before: Seq<char>,
    after: Seq<char>,
    value: Option<String>,
) -> Seq<char> {
    match value {
        Some(v) => if has_suffix(v@, ".svg"@) {
            field(svg_before, v@, svg_after)
        } else {
            field(before, v@, after)
        },
        None => Seq::empty(),
    }
}

/// The parts of a list, each without the blanks around it and between double
/// quotes, with `, ` between them.
pub open spec fn quoted_parts(parts: Seq<Seq<char>>) -> Seq<char>
    decreases parts.len(),
{
    if parts.len() == 0 {
        Seq::empty()
    } else if parts.len() == 1 {
        field("\""@, trimmed(parts[0]), "\""@)
    } else {
        quoted_parts(parts.drop_last()) + ", "@ + field("\""@, trimmed(parts.last()), "\""@)
    }
}

/// The slides of a post as Typst reads them: a text with `|` in it is the list
/// of its parts between the `|`, any other text stands as it is.
pub open spec fn slides_value(s: Seq<char>) -> Seq<char> {
    if s.contains('|') {
        "("@ + quoted_parts(split_at(s, '|')) + ",)"@
    } else {
        s
    }
}

/// The line of the slides, where there are any.
pub open spec fn slides_field(slides: Option<String>) -> Seq<char> {
    match slides {
        Some(s) => field("    slides: "@, slides_value(s@), ",\n"@),
        None => Seq::empty(),
    }
}

/// The Typst source of a post, for the keys of the theme in the order of the
/// dictionary.
pub open spec fn post_source(
    params: &GenerateParams,
    keys: Seq<Seq<char>>,
    theme: Map<Seq<char>, Seq<char>>,
    accent: Seq<char>,
) -> Seq<char> {
    HEADER@
        + entries(keys, theme, accent)
        + optional_field(" \"font-heading\": \""@, params.font_heading, "\", "@)
        + optional_field(" \"font-body\": \""@, params.font_body, "\", "@)
        + optional_field(" \"font-mono\": \""@, params.font_mono, "\", "@)
        + field(
            ")\n\n#show: set-dimensions.with(platform: \""@,
            params.platform@,
            "\", theme: t)\n\n"@,
        )
        + field("#"@, params.layout@, "(\n    t,\n"@)
        + field("    brand: \""@, params.brand@, "\",\n"@)
        + asset_field(
            "    logo: recolor-svg(\""@,
            "\", t.text, original: \"currentColor\"),\n"@,
            "    logo: image(\""@,
            "\", width: 100%),\n"@,
            params.logo,
        )
        + nonempty_field("    title: \""@, params.title@, "\",\n"@)
        + nonempty_field("    quote-text: \""@, params.quote@, "\",\n"@)
        + nonempty_field("    author: \""@, params.author@, "\",\n"@)
        + optional_field("    source: \""@, params.source, "\",\n"@)
        + optional_field("    bg-image: image(\""@, params.image, "\", width: 100%),\n"@)
        + asset_field(
            "    overlay: recolor-svg(\""@,
            "\", t.bg, width: 100%),\n"@,
            "    overlay: image(\""@,
            "\", width: 100%, height: 100%),\n"@,
            params.overlay,
        )
        + nonempty_field("    url: \""@, params.url@, "\",\n"@)
        + (if params.contour {
            "    contour: true,\n"@
        } else {
            Seq::empty()
        })
        + optional_field("    tag: \""@, params.tag, "\",\n"@)
        + slides_field(params.slides)
        + ")\n"@
}

fn push_field(out: &mut String, before: &str, value: &str, after: &str)
    ensures
        final(out)@ == old(out)@ + field(before@, value@, after@),
{
    out.append(before);
    out.append(value);
    out.append(after);
    assert(out@ =~= old(out)@ + field(before@, value@, after@));
}

fn push_optional(out: &mut String, before: &str, value: &Option<String>, after: &str)
    ensures
        final(out)@ == old(out)@ + optional_field(before@, *value, after@),
{
    match value {
        Some(v) => push_field(out, before, v.as_str(), after),
        None => {
            assert(out@ =~= old(out)@ + Seq::<char>::empty());
        },
    }
}

fn push_nonempty(out: &mut String, before: &str, value: &str, after: &str)
    ensures
        final(out)@ == old(out)@ + nonempty_field(before@, value@, after@),
{
    if value.is_empty() {
        assert(out@ =~= old(out)@ + Seq::<char>::empty());
    } else {
        push_field(out, before, value, after);
    }
}

fn push_asset(
    out: &mut String,
    svg_before: &str,
    svg_after: &str,
    before: &str,
    after: &str,
    value: &Option<String>,
)
    ensures
        final(out)@ == old(out)@ + asset_field(
            svg_before@,
            svg_after@,
            before@,
            after@,
            *value,
        ),
{
    match value {
        Some(v) => {
            if ends_with(v.as_str(), ".svg") {
                push_field(out, svg_before, v.as_str(), svg_after);
            } else {
                push_field(out, before, v.as_str(), after);
            }
        },
        None => {
            assert(out@ =~= old(out)@ + Seq::<char>::empty());
        },
    }
}

fn push_entries(out: &mut String, theme: &Theme, order: &Vec<usize>, accent: &str)
    requires
        forall|p: int| 0 <= p < order@.len() ==> order@[p] < theme.keys().len(),
    ensures
        final(out)@ == old(out)@ + entries(keys_in_order(theme, order@), theme@, accent@),
{
    let ghost keys = keys_in_order(theme, order@);
    let replace: bool = !same_text(accent, THEME_ACCENT);
    let mut p: usize = 0;
    proof {
        assert(keys.take(0) =~= Seq::<Seq<char>>::empty());
        assert(out@ =~= old(out)@ + Seq::<char>::empty());
    }
    while p < order.len()
        invariant
            p <= order@.len(),
            keys == keys_in_order(theme, order@),
            replace == (accent@ != THEME_ACCENT@),
            forall|q: int| 0 <= q < order@.len() ==> order@[q] < theme.keys().len(),
            out@ == old(out)@ + entries(keys.take(p as int), theme@, accent@),
        decreases order@.len() - p,
    {
        let key = theme.key_at(order[p]);
        let value = theme.value_at(order[p]);
        let ghost before = out@;
        out.append(key.as_str());
        if replace && same_text(key.as_str(), "accent") {
            push_field(out, ": rgb(\"", accent, "\"), ");
        } else {
            push_field(out, ": rgb(\"", value.as_str(), "\"), ");
        }
        proof {
            let next = keys.take(p + 1);
            assert(next.drop_last() =~= keys.take(p as int));
            assert(next.last() == key@);
            assert(out@ =~= before + entry(key@, value@, accent@));
            assert(out@ =~= old(out)@ + entries(next, theme@, accent@));
        }
        p += 1;
    }
    proof {
        assert(keys.take(p as int) =~= keys);
    }
}

fn push_slides_value(out: &mut String, s: &str)
    ensures
        final(out)@ == old(out)@ + slides_value(s@),
{
    let n: usize = s.unicode_len();
    let mut next: usize = find_from(s, 0, '|');
    proof {
        assert(s@.skip(0) =~= s@);
        lemma_index_of(s@, '|');
    }
    if next >= n {
        out.append(s);
        return ;
    }
    out.append("(");
    let mut from: usize = 0;
    let ghost mut done: Seq<Seq<char>> = Seq::empty();
    let mut first: bool = true;
    proof {
        assert(split_at(s@, '|') =~= done + split_at(s@.skip(0), '|'));
        assert(out@ =~= old(out)@ + "("@ + quoted_parts(done));
    }
    while next < n
        invariant
            from <= next <= n,
            n == s@.len(),
            next == from + index_of(s@.skip(from as int), '|'),
            first == (done.len() == 0),
            split_at(s@, '|') == done + split_at(s@.skip(from as int), '|'),
            out@ == old(out)@ + "("@ + quoted_parts(done),
        decreases n - from,
    {
        let ghost before = out@;
        if !first {
            out.append(", ");
        }
        push_field(out, "\"", trim_between(s, from, next), "\"");
        proof {
            let rest = s@.skip(from as int);
            let piece = s@.subrange(from as int, next as int);
            assert(rest.subrange(0, next - from) =~= piece);
            assert(rest.skip(next - from + 1) =~= s@.skip(next + 1));
            let grown = done.push(piece);
            assert(grown.drop_last() =~= done);
            assert(split_at(s@, '|') =~= grown + split_at(s@.skip(next + 1), '|'));
            assert(out@ =~= old(out)@ + "("@ + quoted_parts(grown));
            done = grown;
        }
        first = false;
        from = next + 1;
        next = find_from(s, from, '|');
    }
    let ghost before = out@;
    if !first {
        out.append(", ");
    }
    push_field(out, "\"", trim_between(s, from, n), "\"");
    out.append(",)");
    proof {
        let rest = s@.skip(from as int);
        lemma_index_of(rest, '|');
        assert(rest =~= s@.subrange(from as int, n as int));
        let grown = done.push(rest);
        assert(grown.drop_last() =~= done);
        assert(split_at(s@, '|') =~= grown);
        assert(out@ =~= old(out)@ + slides_value(s@));
    }
}

fn push_slides(out: &mut String, slides: &Option<String>)
    ensures
        final(out)@ == old(out)@ + slides_field(*slides),
{
    match slides {
        Some(s) => {
            out.append("    slides: ");
            push_slides_value(out, s.as_str());
            out.append(",\n");
            assert(out@ =~= old(out)@ + slides_field(*slides));
        },
        None => {
            assert(out@ =~= old(out)@ + Seq::<char>::empty());
        },
    }
}

/// Writes the Typst source of a post with its theme and its accent.
pub fn render_post(params: &GenerateParams, theme: &Theme, accent: &str) -> (out: String)
    ensures
        exists|keys: Seq<Seq<char>>| #[trigger]
            is_sorted_keys(keys, theme@) && out@ == post_source(params, keys, theme@, accent@),
{
    let order = sorted_keys(theme);
    let mut out = String::from_str(HEADER);
    push_entries(&mut out, theme, &order, accent);
    push_optional(&mut out, " \"font-heading\": \"", &params.font_heading, "\", ");
    push_optional(&mut out, " \"font-body\": \"", &params.font_body, "\", ");
    push_optional(&mut out, " \"font-mono\": \"", &params.font_mono, "\", ");
    push_field(
        &mut out,
        ")\n\n#show: set-dimensions.with(platform: \"",
        params.platform.as_str(),
        "\", theme: t)\n\n",
    );
    push_field(&mut out, "#", params.layout.as_str(), "(\n    t,\n");
    push_field(&mut out, "    brand: \"", params.brand.as_str(), "\",\n");
    push_asset(
        &mut out,
        "    logo: recolor-svg(\"",
        "\", t.text, original: \"currentColor\"),\n",
        "    logo: image(\"",
        "\", width: 100%),\n",
        &params.logo,
    );
    push_nonempty(&mut out, "    title: \"", params.title.as_str(), "\",\n");
    push_nonempty(&mut out, "    quote-text: \"", params.quote.as_str(), "\",\n");
    push_nonempty(&mut out, "    author: \"", params.author.as_str(), "\",\n");
    push_optional(&mut out, "    source: \"", &params.source, "\",\n");
    push_optional(&mut out, "    bg-image: image(\"", &params.image, "\", width: 100%),\n");
    push_asset(
        &mut out,
        "    overlay: recolor-svg(\"",
        "\", t.bg, width: 100%),\n",
        "    overlay: image(\"",
        "\", width: 100%, height: 100%),\n",
        &params.overlay,
    );
    push_nonempty(&mut out, "    url: \"", params.url.as_str(), "\",\n");
    let ghost before = out@;
    if params.contour {
        out.append("    contour: true,\n");
    } else {
        assert(out@ =~= before + Seq::<char>::empty());
    }
    push_optional(&mut out, "    tag: \"", &params.tag, "\",\n");
    push_slides(&mut out, &params.slides);
    out.append(")\n");
    proof {
        assert(is_sorted_keys(keys_in_order(theme, order@), theme@));
    }
    out
}

/// Why a template was not filled.
#[derive(Clone, Copy, Debug, PartialEq, Eq, Structural)]
pub enum TemplateError {
    /// The layout is none of article, quote, hero and carousel.
    UnknownLayout,
}

/// The theme's dictionary as Typst reads it, with the theme's own accent.
pub open spec fn theme_value(keys: Seq<Seq<char>>, theme: Map<Seq<char>, Seq<char>>) -> Seq<char> {
    "("@ + entries(keys, theme, THEME_ACCENT@) + ")"@
}

/// What stands for the background image in the templates that have a line of
/// their own for it.
pub open spec fn bg_image_line(image: Option<String>) -> Seq<char> {
    match image {
        Some(img) => field("bg-image: image(\""@, img@, "\", width: 100%),"@),
        None => "// sin imagen de fondo"@,
    }
}

/// What stands for the background image in the carousel.
pub open spec fn bg_image_value(image: Option<String>) -> Seq<char> {
    match image {
        Some(img) => field("image(\""@, img@, "\", width: 100%)"@),
        None => "none"@,
    }
}

/// What stands for the tag.
pub open spec fn tag_line(tag: Option<String>) -> Seq<char> {
    match tag {
        Some(t) => field("tag: \""@, t@, "\","@),
        None => "// sin tag"@,
    }
}

/// What stands for the slides.
pub open spec fn slides_content(slides: Option<String>) -> Seq<char> {
    match slides {
        Some(s) => slides_value(s@),
        None => "()"@,
    }
}

/// The author of a quote: the brand where the post names no author.
pub open spec fn quote_author(params: &GenerateParams) -> Seq<char> {
    if params.author@.len() == 0 {
        params.brand@
    } else {
        params.author@
    }
}

/// The template of an article with its places filled, one after the other.
pub open spec fn article_source(
    params: &GenerateParams,
    theme: Seq<char>,
    accent: Seq<char>,
) -> Seq<char> {
    let s1 = replaced(MAIN_TEMPLATE_ARTICLE@, "{platform}"@, params.platform@);
    let s2 = replaced(s1, "{theme}"@, theme);
    let s3 = replaced(s2, "{brand}"@, params.brand@);
    let s4 = replaced(s3, "{title}"@, params.title@);
    let s5 = replaced(s4, "{quote}"@, params.quote@);
    let s6 = replaced(s5, "{bg_image_line}"@, bg_image_line(params.image));
    let s7 = replaced(s6, "{accent}"@, accent);
    replaced(s7, "{url}"@, params.url@)
}

/// The template of a quote with its places filled, one after the other.
pub open spec fn quote_source(params: &GenerateParams, theme: Seq<char>) -> Seq<char> {
    let s1 = replaced(MAIN_TEMPLATE_QUOTE@, "{platform}"@, params.platform@);
    let s2 = replaced(s1, "{theme}"@, theme);
    let s3 = replaced(s2, "{quote}"@, params.quote@);
    let s4 = replaced(s3, "{author}"@, quote_author(params));
    replaced(s4, "{brand}"@, params.brand@)
}

/// The template of a hero image with its places filled, one after the other.
pub open spec fn hero_source(params: &GenerateParams, theme: Seq<char>) -> Seq<char> {
    let s1 = replaced(MAIN_TEMPLATE_HERO@, "{platform}"@, params.platform@);
    let s2 = replaced(s1, "{theme}"@, theme);
    let s3 = replaced(s2, "{title}"@, params.title@);
    let s4 = replaced(s3, "{quote}"@, params.quote@);
    let s5 = replaced(s4, "{tag_line}"@, tag_line(params.tag));
    replaced(s5, "{brand}"@, params.brand@)
}

/// The template of a carousel with its places filled, one after the other.
pub open spec fn carousel_source(params: &GenerateParams, theme: Seq<char>) -> Seq<char> {
    let s1 = replaced(MAIN_TEMPLATE_CAROUSEL@, "{platform}"@, params.platform@);
    let s2 = replaced(s1, "{theme}"@, theme);
    let s3 = replaced(s2, "{title}"@, params.title@);
    let s4 = replaced(s3, "{slides_content}"@, slides_content(params.slides));
    replaced(s4, "{bg_image_line}"@, bg_image_value(params.image))
}

/// The filled template of the layout of a post, which is an error for a
/// layout that has no template.
pub open spec fn template_source(
    params: &GenerateParams,
    theme: Seq<char>,
    accent: Seq<char>,
) -> Result<Seq<char>, TemplateError> {
    if params.layout@ == "article"@ {
        Ok(article_source(params, theme, accent))
    } else if params.layout@ == "quote"@ {
        Ok(quote_source(params, theme))
    } else if params.layout@ == "hero"@ {
        Ok(hero_source(params, theme))
    } else if params.layout@ == "carousel"@ {
        Ok(carousel_source(params, theme))
    } else {
        Err(TemplateError::UnknownLayout)
    }
}

fn theme_text(theme: &Theme) -> (res: (String, Ghost<Seq<Seq<char>>>))
    ensures
        is_sorted_keys(res.1@, theme@),
        res.0@ == theme_value(res.1@, theme@),
{
    let order = sorted_keys(theme);
    let mut out = String::from_str("(");
    push_entries(&mut out, theme, &order, THEME_ACCENT);
    out.append(")");
    (out, Ghost(keys_in_order(theme, order@)))
}

fn field_text(before: &str, value: &str, after: &str) -> (out: String)
    ensures
        out@ == field(before@, value@, after@),
{
    let mut out = String::from_str(before);
    out.append(value);
    out.append(after);
    out
}

/// Fills the template of the layout of a post with its fields, its theme and
/// its accent.
pub fn generate_typst_content(params: &GenerateParams, accent: &str, theme: &Theme) -> (res: Result<
    String,
    TemplateError,
>)
    ensures
        exists|keys: Seq<Seq<char>>| #[trigger]
            is_sorted_keys(keys, theme@) && match (res, template_source(
                params,
                theme_value(keys, theme@),
                accent@,
            )) {
                (Ok(text), Ok(expected)) => text@ == expected,
                (Err(e), Err(expected)) => e == expected,
                _ => false,
            },
{
    let (theme_str, Ghost(keys)) = theme_text(theme);
    let layout = params.layout.as_str();
    if same_text(layout, "article") {
        let bg = match &params.image {
            Some(img) => field_text("bg-image: image(\"", img.as_str(), "\", width: 100%),"),
            None => String::from_str("// sin imagen de fondo"),
        };
        let s1 = replace(MAIN_TEMPLATE_ARTICLE, "{platform}", params.platform.as_str());
        let s2 = replace(s1.as_str(), "{theme}", theme_str.as_str());
        let s3 = replace(s2.as_str(), "{brand}", params.brand.as_str());
        let s4 = replace(s3.as_str(), "{title}", params.title.as_str());
        let s5 = replace(s4.as_str(), "{quote}", params.quote.as_str());
        let s6 = replace(s5.as_str(), "{bg_image_line}", bg.as_str());
        let s7 = replace(s6.as_str(), "{accent}", accent);
        Ok(replace(s7.as_str(), "{url}", params.url.as_str()))
    } else if same_text(layout, "quote") {
        let author = if params.author.as_str().is_empty() {
            params.brand.as_str()
        } else {
            params.author.as_str()
        };
        let s1 = replace(MAIN_TEMPLATE_QUOTE, "{platform}", params.platform.as_str());
        let s2 = replace(s1.as_str(), "{theme}", theme_str.as_str());
        let s3 = replace(s2.as_str(), "{quote}", params.quote.as_str());
        let s4 = replace(s3.as_str(), "{author}", author);
        Ok(replace(s4.as_str(), "{brand}", params.brand.as_str()))
    } else if same_text(layout, "hero") {
        let tag = match &params.tag {
            Some(t) => field_text("tag: \"", t.as_str(), "\","),
            None => String::from_str("// sin tag"),
        };
        let s1 = replace(MAIN_TEMPLATE_HERO, "{platform}", params.platform.as_str());
        let s2 = replace(s1.as_str(), "{theme}", theme_str.as_str());
        let s3 = replace(s2.as_str(), "{title}", params.title.as_str());
        let s4 = replace(s3.as_str(), "{quote}", params.quote.as_str());
        let s5 = replace(s4.as_str(), "{tag_line}", tag.as_str());
        Ok(replace(s5.as_str(), "{brand}", params.brand.as_str()))
    } else if same_text(layout, "carousel") {
        let mut slides = String::new();
        match &params.slides {
            Some(s) => {
                push_slides_value(&mut slides, s.as_str());
                assert(slides@ =~= slides_value(s@));
            },
            None => {
                slides.append("()");
                assert(slides@ =~= "()"@);
            },
        }
        let bg = match &params.image {
            Some(img) => field_text("image(\"", img.as_str(), "\", width: 100%)"),
            None => String::from_str("none"),
        };
        let s1 = replace(MAIN_TEMPLATE_CAROUSEL, "{platform}", params.platform.as_str());
        let s2 = replace(s1.as_str(), "{theme}", theme_str.as_str());
        let s3 = replace(s2.as_str(), "{title}", params.title.as_str());
        let s4 = replace(s3.as_str(), "{slides_content}", slides.as_str());
        Ok(replace(s4.as_str(), "{bg_image_line}", bg.as_str()))
    } else {
        Err(TemplateError::UnknownLayout)
    }
}

/// One line for each key, in their order: the key and its value in the theme,
/// with a text before, between and after them.
pub open spec fn lines(
    keys: Seq<Seq<char>>,
    theme: Map<Seq<char>, Seq<char>>,
    before: Seq<char>,
    between: Seq<char>,
    after: Seq<char>,
) -> Seq<char>
    decreases keys.len(),
{
    if keys.len() == 0 {
        Seq::empty()
    } else {
        lines(keys.drop_last(), theme, before, between, after) + before + keys.last() + between
            + theme[keys.last()] + after
    }
}

/// A palette as it is shown in a format: a table names the seed and lists
/// each role with its colour; Typst gets one dictionary entry under the
/// palette's name. JSON is not written here.
pub open spec fn palette_text_of(
    keys: Seq<Seq<char>>,
    theme: Map<Seq<char>, Seq<char>>,
    format: OutputFormat,
    name: Seq<char>,
    base_color: Seq<char>,
) -> Option<Seq<char>> {
    match format {
        OutputFormat::Table => Some(
            field("Palette: "@, base_color, "\n"@) + lines(keys, theme, ""@, ": "@, "\n"@),
        ),
        OutputFormat::Typst => Some(
            field("  "@, name, ": (\n"@) + lines(keys, theme, "    "@, ": rgb(\""@, "\"),\n"@)
                + "  ),\n"@,
        ),
        OutputFormat::Json => None,
    }
}

fn push_lines(
    out: &mut String,
    theme: &Theme,
    order: &Vec<usize>,
    before: &str,
    between: &str,
    after: &str,
)
    requires
        forall|p: int| 0 <= p < order@.len() ==> order@[p] < theme.keys().len(),
    ensures
        final(out)@ == old(out)@ + lines(
            keys_in_order(theme, order@),
            theme@,
            before@,
            between@,
            after@,
        ),
{
    let ghost keys = keys_in_order(theme, order@);
    let mut p: usize = 0;
    proof {
        assert(keys.take(0) =~= Seq::<Seq<char>>::empty());
        assert(out@ =~= old(out)@ + Seq::<char>::empty());
    }
    while p < order.len()
        invariant
            p <= order@.len(),
            keys == keys_in_order(theme, order@),
            forall|q: int| 0 <= q < order@.len() ==> order@[q] < theme.keys().len(),
            out@ == old(out)@ + lines(keys.take(p as int), theme@, before@, between@, after@),
        decreases order@.len() - p,
    {
        let key = theme.key_at(order[p]);
        let value = theme.value_at(order[p]);
        let ghost so_far = out@;
        out.append(before);
        out.append(key.as_str());
        out.append(between);
        out.append(value.as_str());
        out.append(after);
        proof {
            let next = keys.take(p + 1);
            assert(next.drop_last() =~= keys.take(p as int));
            assert(next.last() == key@);
            assert(out@ =~= old(out)@ + lines(next, theme@, before@, between@, after@));
        }
        p += 1;
    }
    proof {
        assert(keys.take(p as int) =~= keys);
    }
}

/// Writes a palette as it is shown in a format, its roles in the order of the
/// dictionary. There is nothing for JSON, which is written elsewhere.
pub fn palette_text(theme: &Theme, format: OutputFormat, name: &str, base_color: &str) -> (res:
    Option<String>)
    ensures
        exists|keys: Seq<Seq<char>>| #[trigger]
            is_sorted_keys(keys, theme@) && match (res, palette_text_of(
                keys,
                theme@,
                format,
                name@,
                base_color@,
            )) {
                (Some(text), Some(expected)) => text@ == expected,
                (None, None) => true,
                _ => false,
            },
{
    let order = sorted_keys(theme);
    proof {
        assert(is_sorted_keys(keys_in_order(theme, order@), theme@));
    }
    match format {
        OutputFormat::Table => {
            let mut out = field_text("Palette: ", base_color, "\n");
            push_lines(&mut out, theme, &order, "", ": ", "\n");
            Some(out)
        },
        OutputFormat::Typst => {
            let mut out = field_text("  ", name, ": (\n");
            push_lines(&mut out, theme, &order, "    ", ": rgb(\"", "\"),\n");
            out.append("  ),\n");
            Some(out)
        },
        OutputFormat::Json => None,
    }
}

} // verus!
