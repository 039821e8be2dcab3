use vstd::prelude::*;
use crate::error::Error;
use tinytemplate::error::Error as RenderError;

verus! {

#[verifier::external_type_specification]
#[verifier::external_body]
pub struct ExRenderError(RenderError);

/// The values that a template's placeholders are filled with.
pub struct TemplateContext {
    pub year: u32,
    pub day: u8,
    pub package_name: String,
}

/// What a template text renders to with the given values, if it compiles and
/// every placeholder it names is known.
pub uninterp spec fn rendered(text: Seq<char>, year: int, day: int, package_name: Seq<char>) -> Option<Seq<char>>;

/// What `text` renders to in the context `ctx`.
pub open spec fn rendered_in(text: Seq<char>, ctx: TemplateContext) -> Option<Seq<char>> {
    rendered(text, ctx.year as int, ctx.day as int, ctx.package_name@)
}

/// A template text of plain values only: it opens no block tag (`{{`), which
/// could call a template recursively, and no comment (`{#`), and it does not end
/// with a backslash, which would escape past its end.
pub open spec fn plain_template(text: Seq<char>) -> bool {
    &&& forall|i: int| 0 <= i < text.len() - 1 && #[trigger] text[i] == '{' ==> text[i + 1] != '{' && text[i + 1] != '#'
    &&& (text.len() == 0 || text.last() != '\\')
}

/// What a template text renders to in `ctx`: `None` where it is no plain
/// template, or does not render.
pub open spec fn render_result(text: Seq<char>, ctx: TemplateContext) -> Option<Seq<char>> {
    if plain_template(text) {
        rendered_in(text, ctx)
    } else {
        None
    }
}

/// Whether `text` is a plain template.
fn is_plain_template(text: &str) -> (r: bool)
    ensures
        r == plain_template(text@),
{
    let n = text.unicode_len();
    if n == 0 {
        return true;
    }
    if text.get_char(n - 1) == '\\' {
        return false;
    }
    let mut i: usize = 0;
    while i + 1 < n
        invariant
            n == text@.len(),
            n > 0,
            i < n,
            forall|j: int| 0 <= j < i && #[trigger] text@[j] == '{' ==> text@[j + 1] != '{' && text@[j + 1] != '#',
        decreases n - i,
    {
        if text.get_char(i) == '{' {
            let c = text.get_char(i + 1);
            if c == '{' || c == '#' {
                return false;
            }
        }
        i = i + 1;
    }
    true
}

/// Relies on tinytemplate's `TinyTemplate::add_template` and `render`, with the
/// context handed over as a flat map of `year`, `day` and `package_name`.
#[verifier::external_body]
fn render_with(text: &str, ctx: &TemplateContext) -> (r: Result<String, RenderError>)
    requires
        plain_template(text@),
    ensures
        match r {
            Ok(s) => rendered(text@, ctx.year as int, ctx.day as int, ctx.package_name@) == Some(s@),
            Err(_) => rendered(text@, ctx.year as int, ctx.day as int, ctx.package_name@) is None,
        },
{
    let mut map = serde_json::Map::new();
    map.insert("year".to_string(), serde_json::Value::from(ctx.year));
    map.insert("day".to_string(), serde_json::Value::from(ctx.day));
    map.insert("package_name".to_string(), serde_json::Value::from(ctx.package_name.as_str()));
    let mut tt = tinytemplate::TinyTemplate::new();
    tt.add_template("template", text)?;
    tt.render("template", &map)
}

/// The files, relative to the template directory, that make up a unit.
pub open spec fn template_names() -> Seq<Seq<char>> {
    seq!["Cargo.toml"@, "src/lib.rs"@, "src/main.rs"@]
}

/// Where a template that is missing locally is fetched from.
pub open spec fn template_url_of(name: Seq<char>) -> Seq<char> {
    "https://raw.githubusercontent.com/coriolinus/aoctool/master/day-template/"@ + name
}

/// The views of a list of strings.
pub open spec fn views(v: Seq<String>) -> Seq<Seq<char>> {
    v.map_values(|s: String| s@)
}

/// The files that make up a unit, in the order they are rendered.
pub fn template_files() -> (r: Vec<String>)
    ensures
        views(r@) == template_names(),
{
    let r = vec![
        String::from_str("Cargo.toml"),
        String::from_str("src/lib.rs"),
        String::from_str("src/main.rs"),
    ];
    assert(views(r@) =~= template_names());
    r
}

/// The location that the template `name` is fetched from.
pub fn template_url(name: &str) -> (r: String)
    ensures
        r@ == template_url_of(name@),
{
    let mut url = String::from_str("https://raw.githubusercontent.com/coriolinus/aoctool/master/day-template/");
    url.append(name);
    url
}

/// For each template, the location to fetch it from, or `None` where a local
/// copy is present: a local copy is never replaced.
pub fn templates_to_fetch(names: &Vec<String>, present: &Vec<bool>) -> (r: Vec<Option<String>>)
    requires
        names@.len() == present@.len(),
    ensures
        r@.len() == names@.len(),
        forall|i: int| 0 <= i < r@.len() ==> if present@[i] {
            r@[i] is None
        } else {
            r@[i] is Some && r@[i]->Some_0@ == template_url_of(names@[i]@)
        },
{
    let mut r: Vec<Option<String>> = Vec::new();
    let mut i: usize = 0;
    while i < names.len()
        invariant
            names@.len() == present@.len(),
            i <= names@.len(),
            r@.len() == i,
            forall|j: int| 0 <= j < i ==> if present@[j] {
                r@[j] is None
            } else {
                r@[j] is Some && r@[j]->Some_0@ == template_url_of(names@[j]@)
            },
        decreases names@.len() - i,
    {
        if present[i] {
            r.push(None);
        } else {
            r.push(Some(template_url(names[i].as_str())));
        }
        i = i + 1;
    }
    r
}

/// `i` is the first index where `present` holds.
pub open spec fn first_present(present: Seq<bool>, i: int) -> bool {
    0 <= i < present.len() && present[i] && forall|j: int| 0 <= j < i ==> !present[j]
}

/// `i` is the first template that does not render.
pub open spec fn first_unrendered(texts: Seq<String>, ctx: TemplateContext, i: int) -> bool {
    &&& 0 <= i < texts.len()
    &&& render_result(texts[i]@, ctx) is None
    &&& forall|j: int| 0 <= j < i ==> render_result(#[trigger] texts[j]@, ctx) is Some
}

/// Renders each template text in `ctx`, for the destination of the same name.
///
/// Where a destination is already present, nothing is rendered and the first such
/// name comes back as `DestinationExists`: an existing file is never replaced.
/// Otherwise the first template that is no plain template, or does not render,
/// comes back as `Template`,
/// and where all render, their texts come back in order.
pub fn render_templates(
    names: &Vec<String>,
    texts: &Vec<String>,
    dest_present: &Vec<bool>,
    ctx: &TemplateContext,
) -> (r: Result<Vec<String>, Error>)
    requires
        names@.len() == texts@.len(),
        names@.len() == dest_present@.len(),
    ensures
        (exists|i: int| 0 <= i < dest_present@.len() && dest_present@[i]) ==> {
            &&& r is Err
            &&& r->Err_0 is DestinationExists
            &&& exists|i: int| first_present(dest_present@, i)
                && r->Err_0->DestinationExists_0@ == names@[i]@
        },
        (forall|i: int| 0 <= i < dest_present@.len() ==> !dest_present@[i]) ==> {
            &&& (forall|i: int| 0 <= i < texts@.len() ==> render_result(#[trigger] texts@[i]@, *ctx) is Some) ==> {
                &&& r is Ok
                &&& r->Ok_0@.len() == texts@.len()
                &&& forall|i: int| 0 <= i < texts@.len() ==>
                    Some(#[trigger] r->Ok_0@[i]@) == render_result(texts@[i]@, *ctx)
            }
            &&& !(forall|i: int| 0 <= i < texts@.len() ==> render_result(#[trigger] texts@[i]@, *ctx) is Some) ==> {
                &&& r is Err
                &&& r->Err_0 is Template
                &&& exists|i: int| first_unrendered(texts@, *ctx, i)
                    && r->Err_0->Template_0@ == names@[i]@
            }
        },
{
    let mut i: usize = 0;
    while i < dest_present.len()
        invariant
            i <= dest_present@.len(),
            names@.len() == dest_present@.len(),
            forall|j: int| 0 <= j < i ==> !dest_present@[j],
        decreases dest_present@.len() - i,
    {
        if dest_present[i] {
            assert(first_present(dest_present@, i as int));
            return Err(Error::DestinationExists(names[i].clone()));
        }
        i = i + 1;
    }
    let mut out: Vec<String> = Vec::new();
    let mut k: usize = 0;
    while k < texts.len()
        invariant
            k <= texts@.len(),
            names@.len() == texts@.len(),
            names@.len() == dest_present@.len(),
            forall|j: int| 0 <= j < dest_present@.len() ==> !dest_present@[j],
            out@.len() == k,
            forall|j: int| 0 <= j < k ==> render_result(#[trigger] texts@[j]@, *ctx) is Some,
            forall|j: int| 0 <= j < k ==> Some(#[trigger] out@[j]@) == render_result(texts@[j]@, *ctx),
        decreases texts@.len() - k,
    {
        if !is_plain_template(texts[k].as_str()) {
            assert(first_unrendered(texts@, *ctx, k as int));
            return Err(Error::Template(names[k].clone()));
        }
        match render_with(texts[k].as_str(), ctx) {
            Ok(s) => out.push(s),
            Err(_) => {
                assert(first_unrendered(texts@, *ctx, k as int));
                return Err(Error::Template(names[k].clone()));
            },
        }
        k = k + 1;
    }
    Ok(out)
}

} // verus!
