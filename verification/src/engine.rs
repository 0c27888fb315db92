//! The variable context handed to the template renderer, and the trusted
//! boundary to the `tera` template engine.  The context's contents are
//! tracked through the spec-level mapping `context_vars`; building a
//! palette's context is verified against it.
//!
//! The engine instance itself (with this tool's color filters registered)
//! is constructed outside the library, because the filters take floating
//! point alpha arguments; a prepared engine is passed in here to render.

use vstd::prelude::*;
use vstd::string::*;

use crate::palette::{Base16, Base30, Palette, PaletteError};

verus! {

/// Declares tera::Context, the renderer's variable mapping, opaque to the
/// proofs; its contents are tracked through `context_vars`.
#[verifier::external_type_specification]
#[verifier::external_body]
pub struct ExContext(tera::Context);

/// Declares tera::Tera, the template engine instance, opaque to the
/// proofs.
#[verifier::external_type_specification]
#[verifier::external_body]
pub struct ExTera(tera::Tera);

/// Declares tera::Error, the renderer's error, opaque to the proofs.
#[verifier::external_type_specification]
#[verifier::external_body]
pub struct ExTeraError(tera::Error);

/// The flat variable mapping a context holds: variable name to string
/// value, for contexts built by this module's inserts.
pub uninterp spec fn context_vars(c: tera::Context) -> Map<Seq<char>, Seq<char>>;

/// Relies on tera::Context::new: a freshly created context holds no
/// variables.
#[verifier::external_body]
pub fn context_new() -> (c: tera::Context)
    ensures
        context_vars(c) =~= Map::empty(),
{
    tera::Context::new()
}

/// Relies on tera::Context::insert: inserting a string value stores it
/// under the key, replacing any earlier value under that key.
#[verifier::external_body]
pub fn context_insert(c: &mut tera::Context, key: &str, value: &str)
    ensures
        context_vars(*final(c)) == context_vars(*old(c)).insert(key@, value@),
{
    c.insert(key, value)
}

/// Relies on tera::Tera::add_raw_template: registers the named template
/// from its raw text, replacing one already registered under that name, or
/// reports why the text does not parse.
#[verifier::external_body]
pub fn add_raw_template(engine: &mut tera::Tera, name: &str, content: &str) -> Result<
    (),
    tera::Error,
> {
    engine.add_raw_template(name, content)
}

/// Relies on tera::Tera::render: renders the named registered template
/// against the context, or reports why it cannot (unknown template, missing
/// variable, failing filter).
#[verifier::external_body]
pub fn render_template(engine: &tera::Tera, name: &str, context: &tera::Context) -> Result<
    String,
    tera::Error,
> {
    engine.render(name, context)
}

/// Relies on the Display impl of tera::Error for the error's message.
#[verifier::external_body]
pub fn tera_error_message(e: &tera::Error) -> String {
    e.to_string()
}

/// The variables contributed by the palette name and the 16-slot base set:
/// the 16 canonical keys plus `name`, the four lettered slots under their
/// upper-case-letter names.
pub open spec fn base16_vars(name: Seq<char>, b: Base16) -> Map<Seq<char>, Seq<char>> {
    Map::<Seq<char>, Seq<char>>::empty().insert("name"@, name).insert("base00"@, b.base00@).insert(
        "base01"@,
        b.base01@,
    ).insert("base02"@, b.base02@).insert("base03"@, b.base03@).insert(
        "base04"@,
        b.base04@,
    ).insert("base05"@, b.base05@).insert("base06"@, b.base06@).insert(
        "base07"@,
        b.base07@,
    ).insert("base08"@, b.base08@).insert("base09"@, b.base09@).insert(
        "base0A"@,
        b.base0a@,
    ).insert("base0B"@, b.base0b@).insert("base0C"@, b.base0c@).insert(
        "base0D"@,
        b.base0d@,
    ).insert("base0E"@, b.base0e@).insert("base0F"@, b.base0f@)
}

/// The extended set's variables, added over an existing mapping.
pub open spec fn base30_vars_over(m: Map<Seq<char>, Seq<char>>, b: Base30) -> Map<
    Seq<char>,
    Seq<char>,
> {
    m.insert("white"@, b.white@).insert("darker_black"@, b.darker_black@).insert(
        "black"@,
        b.black@,
    ).insert("black2"@, b.black2@).insert("one_bg"@, b.one_bg@).insert(
        "one_bg2"@,
        b.one_bg2@,
    ).insert("one_bg3"@, b.one_bg3@).insert("grey"@, b.grey@).insert(
        "grey_fg"@,
        b.grey_fg@,
    ).insert("grey_fg2"@, b.grey_fg2@).insert("light_grey"@, b.light_grey@).insert(
        "red"@,
        b.red@,
    ).insert("baby_pink"@, b.baby_pink@).insert("pink"@, b.pink@).insert(
        "line"@,
        b.line@,
    ).insert("green"@, b.green@).insert("vibrant_green"@, b.vibrant_green@).insert(
        "nord_blue"@,
        b.nord_blue@,
    ).insert("blue"@, b.blue@).insert("yellow"@, b.yellow@).insert("sun"@, b.sun@).insert(
        "purple"@,
        b.purple@,
    ).insert("dark_purple"@, b.dark_purple@).insert("teal"@, b.teal@).insert(
        "orange"@,
        b.orange@,
    ).insert("cyan"@, b.cyan@).insert("lightbg"@, b.lightbg@)
}

/// The full variable mapping a palette yields: the base set's variables,
/// with the extended set's added when the palette carries one.
pub open spec fn spec_palette_vars(name: Seq<char>, b16: Base16, b30: Option<Base30>) -> Map<
    Seq<char>,
    Seq<char>,
> {
    match b30 {
        Some(b) => base30_vars_over(base16_vars(name, b16), b),
        None => base16_vars(name, b16),
    }
}

/// Builds the variable context for a palette.  A palette without the
/// 16-slot base set yields `MissingBase16` and no context; with it, the
/// context holds exactly the palette's variables.
pub fn create_context(palette: &Palette) -> (r: Result<tera::Context, PaletteError>)
    ensures
        r is Ok <==> palette.base_16 is Some,
        r matches Err(e) ==> e == PaletteError::MissingBase16,
        r matches Ok(c) ==> (palette.base_16 matches Some(b16) && context_vars(c)
            == spec_palette_vars(palette.name@, b16, palette.base_30)),
{
    let base16 = match palette.base16() {
        Ok(b) => b,
        Err(_) => {
            return Err(PaletteError::MissingBase16);
        },
    };
    let mut ctx = context_new();
    context_insert(&mut ctx, "name", palette.name.as_str());
    context_insert(&mut ctx, "base00", base16.base00.as_str());
    context_insert(&mut ctx, "base01", base16.base01.as_str());
    context_insert(&mut ctx, "base02", base16.base02.as_str());
    context_insert(&mut ctx, "base03", base16.base03.as_str());
    context_insert(&mut ctx, "base04", base16.base04.as_str());
    context_insert(&mut ctx, "base05", base16.base05.as_str());
    context_insert(&mut ctx, "base06", base16.base06.as_str());
    context_insert(&mut ctx, "base07", base16.base07.as_str());
    context_insert(&mut ctx, "base08", base16.base08.as_str());
    context_insert(&mut ctx, "base09", base16.base09.as_str());
    context_insert(&mut ctx, "base0A", base16.base0a.as_str());
    context_insert(&mut ctx, "base0B", base16.base0b.as_str());
    context_insert(&mut ctx, "base0C", base16.base0c.as_str());
    context_insert(&mut ctx, "base0D", base16.base0d.as_str());
    context_insert(&mut ctx, "base0E", base16.base0e.as_str());
    context_insert(&mut ctx, "base0F", base16.base0f.as_str());
    assert(context_vars(ctx) =~= base16_vars(palette.name@, *base16));
    match palette.base30() {
        Ok(base30) => {
            context_insert(&mut ctx, "white", base30.white.as_str());
            context_insert(&mut ctx, "darker_black", base30.darker_black.as_str());
            context_insert(&mut ctx, "black", base30.black.as_str());
            context_insert(&mut ctx, "black2", base30.black2.as_str());
            context_insert(&mut ctx, "one_bg", base30.one_bg.as_str());
            context_insert(&mut ctx, "one_bg2", base30.one_bg2.as_str());
            context_insert(&mut ctx, "one_bg3", base30.one_bg3.as_str());
            context_insert(&mut ctx, "grey", base30.grey.as_str());
            context_insert(&mut ctx, "grey_fg", base30.grey_fg.as_str());
            context_insert(&mut ctx, "grey_fg2", base30.grey_fg2.as_str());
            context_insert(&mut ctx, "light_grey", base30.light_grey.as_str());
            context_insert(&mut ctx, "red", base30.red.as_str());
            context_insert(&mut ctx, "baby_pink", base30.baby_pink.as_str());
            context_insert(&mut ctx, "pink", base30.pink.as_str());
            context_insert(&mut ctx, "line", base30.line.as_str());
            context_insert(&mut ctx, "green", base30.green.as_str());
            context_insert(&mut ctx, "vibrant_green", base30.vibrant_green.as_str());
            context_insert(&mut ctx, "nord_blue", base30.nord_blue.as_str());
            context_insert(&mut ctx, "blue", base30.blue.as_str());
            context_insert(&mut ctx, "yellow", base30.yellow.as_str());
            context_insert(&mut ctx, "sun", base30.sun.as_str());
            context_insert(&mut ctx, "purple", base30.purple.as_str());
            context_insert(&mut ctx, "dark_purple", base30.dark_purple.as_str());
            context_insert(&mut ctx, "teal", base30.teal.as_str());
            context_insert(&mut ctx, "orange", base30.orange.as_str());
            context_insert(&mut ctx, "cyan", base30.cyan.as_str());
            context_insert(&mut ctx, "lightbg", base30.lightbg.as_str());
            assert(context_vars(ctx) =~= spec_palette_vars(
                palette.name@,
                *base16,
                palette.base_30,
            ));
        },
        Err(_) => {
            assert(context_vars(ctx) =~= spec_palette_vars(
                palette.name@,
                *base16,
                palette.base_30,
            ));
        },
    }
    Ok(ctx)
}

/// The canonical key set of a base-set context: the 16 slot names plus
/// `name`, the lettered slots in upper-case-letter form.
pub open spec fn base16_key_set() -> Set<Seq<char>> {
    set![
        "name"@,
        "base00"@,
        "base01"@,
        "base02"@,
        "base03"@,
        "base04"@,
        "base05"@,
        "base06"@,
        "base07"@,
        "base08"@,
        "base09"@,
        "base0A"@,
        "base0B"@,
        "base0C"@,
        "base0D"@,
        "base0E"@,
        "base0F"@,
    ]
}

/// Law: for every palette name and complete 16-slot base set, the variables
/// contributed are exactly the 16 canonical keys plus `name` — no more, no
/// fewer — and each key holds its slot's color, the four lettered slots
/// under their upper-case-letter names.
pub proof fn lemma_base16_context_exact_keys(name: Seq<char>, b: Base16)
    ensures
        base16_vars(name, b).dom() =~= base16_key_set(),
        !base16_key_set().contains("base0a"@),
        !base16_key_set().contains("base0b"@),
        !base16_key_set().contains("base0c"@),
        !base16_key_set().contains("base0d"@),
        !base16_key_set().contains("base0e"@),
        !base16_key_set().contains("base0f"@),
        base16_vars(name, b)["name"@] == name,
        base16_vars(name, b)["base0A"@] == b.base0a@,
        base16_vars(name, b)["base0B"@] == b.base0b@,
        base16_vars(name, b)["base0C"@] == b.base0c@,
        base16_vars(name, b)["base0D"@] == b.base0d@,
        base16_vars(name, b)["base0E"@] == b.base0e@,
        base16_vars(name, b)["base0F"@] == b.base0f@,
{
    reveal_strlit("name");
    reveal_strlit("base00");
    reveal_strlit("base01");
    reveal_strlit("base02");
    reveal_strlit("base03");
    reveal_strlit("base04");
    reveal_strlit("base05");
    reveal_strlit("base06");
    reveal_strlit("base07");
    reveal_strlit("base08");
    reveal_strlit("base09");
    reveal_strlit("base0A");
    reveal_strlit("base0B");
    reveal_strlit("base0C");
    reveal_strlit("base0D");
    reveal_strlit("base0E");
    reveal_strlit("base0F");
    reveal_strlit("base0a");
    reveal_strlit("base0b");
    reveal_strlit("base0c");
    reveal_strlit("base0d");
    reveal_strlit("base0e");
    reveal_strlit("base0f");
    assert("base0a"@[5] == 'a' && "base0b"@[5] == 'b' && "base0c"@[5] == 'c' && "base0d"@[5] == 'd'
        && "base0e"@[5] == 'e' && "base0f"@[5] == 'f');
    assert("base0a"@.len() == 6 && "base0b"@.len() == 6 && "base0c"@.len() == 6 && "base0d"@.len()
        == 6 && "base0e"@.len() == 6 && "base0f"@.len() == 6);
    assert("name"@.len() != "base00"@.len());
    assert("name"@ != "base00"@ && "name"@ != "base01"@ && "name"@ != "base02"@ && "name"@
        != "base03"@ && "name"@ != "base04"@ && "name"@ != "base05"@ && "name"@ != "base06"@
        && "name"@ != "base07"@ && "name"@ != "base08"@ && "name"@ != "base09"@ && "name"@
        != "base0A"@ && "name"@ != "base0B"@ && "name"@ != "base0C"@ && "name"@ != "base0D"@
        && "name"@ != "base0E"@ && "name"@ != "base0F"@);
    assert("base0A"@[5] == 'A' && "base0B"@[5] == 'B' && "base0C"@[5] == 'C' && "base0D"@[5] == 'D'
        && "base0E"@[5] == 'E' && "base0F"@[5] == 'F');
    assert("base0A"@ != "base0B"@ && "base0A"@ != "base0C"@ && "base0A"@ != "base0D"@ && "base0A"@
        != "base0E"@ && "base0A"@ != "base0F"@);
    assert("base0B"@ != "base0C"@ && "base0B"@ != "base0D"@ && "base0B"@ != "base0E"@ && "base0B"@
        != "base0F"@);
    assert("base0C"@ != "base0D"@ && "base0C"@ != "base0E"@ && "base0C"@ != "base0F"@);
    assert("base0D"@ != "base0E"@ && "base0D"@ != "base0F"@);
    assert("base0E"@ != "base0F"@);
}

} // verus!
