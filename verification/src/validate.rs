//! Validating target templates without writing anything: each target's
//! template is read and rendered against a stand-in palette that fills
//! every variable, and the outcomes are summarised.

use vstd::prelude::*;
use vstd::string::*;
use vstd::pervasive::unreached;

use crate::config::Target;
use crate::engine::{add_raw_template, create_context, render_template};
use crate::palette::{Base16, Base30, Palette};
use crate::processor::ReadOutcome;
use crate::strutil::{dec_of, spec_dec, spec_path_join};

verus! {

/// The stand-in palette used for validation: every base slot and every
/// extended color filled with a placeholder value, so that any template
/// variable resolves.
pub fn create_dummy_palette() -> (r: Palette)
    ensures
        r.name@ == "validation-dummy"@,
        r.base_16 is Some,
        r.base_30 is Some,
        r.base_16 matches Some(b) ==> b.base00@ == "000000"@ && b.base01@ == "111111"@ && b.base02@
            == "222222"@ && b.base03@ == "333333"@ && b.base04@ == "444444"@ && b.base05@
            == "555555"@ && b.base06@ == "666666"@ && b.base07@ == "777777"@ && b.base08@
            == "888888"@ && b.base09@ == "999999"@ && b.base0a@ == "aaaaaa"@ && b.base0b@
            == "bbbbbb"@ && b.base0c@ == "cccccc"@ && b.base0d@ == "dddddd"@ && b.base0e@
            == "eeeeee"@ && b.base0f@ == "ffffff"@,
        r.base_30 matches Some(b) ==> b.white@ == "ffffff"@ && b.darker_black@ == "000000"@
            && b.black@ == "111111"@ && b.black2@ == "1a1a1a"@ && b.one_bg@ == "222222"@
            && b.one_bg2@ == "2a2a2a"@ && b.one_bg3@ == "333333"@ && b.grey@ == "888888"@
            && b.grey_fg@ == "999999"@ && b.grey_fg2@ == "aaaaaa"@ && b.light_grey@ == "bbbbbb"@
            && b.red@ == "ff0000"@ && b.baby_pink@ == "ffaaaa"@ && b.pink@ == "ff00ff"@ && b.line@
            == "444444"@ && b.green@ == "00ff00"@ && b.vibrant_green@ == "00ff88"@ && b.nord_blue@
            == "5e81ac"@ && b.blue@ == "0000ff"@ && b.yellow@ == "ffff00"@ && b.sun@ == "ffaa00"@
            && b.purple@ == "aa00ff"@ && b.dark_purple@ == "550088"@ && b.teal@ == "00ffff"@
            && b.orange@ == "ff8800"@ && b.cyan@ == "00aaff"@ && b.lightbg@ == "eeeeee"@,
{
    Palette {
        name: String::from_str("validation-dummy"),
        base_16: Some(
            Base16 {
                base00: String::from_str("000000"),
                base01: String::from_str("111111"),
                base02: String::from_str("222222"),
                base03: String::from_str("333333"),
                base04: String::from_str("444444"),
                base05: String::from_str("555555"),
                base06: String::from_str("666666"),
                base07: String::from_str("777777"),
                base08: String::from_str("888888"),
                base09: String::from_str("999999"),
                base0a: String::from_str("aaaaaa"),
                base0b: String::from_str("bbbbbb"),
                base0c: String::from_str("cccccc"),
                base0d: String::from_str("dddddd"),
                base0e: String::from_str("eeeeee"),
                base0f: String::from_str("ffffff"),
            },
        ),
        base_30: Some(
            Base30 {
                white: String::from_str("ffffff"),
                darker_black: String::from_str("000000"),
                black: String::from_str("111111"),
                black2: String::from_str("1a1a1a"),
                one_bg: String::from_str("222222"),
                one_bg2: String::from_str("2a2a2a"),
                one_bg3: String::from_str("333333"),
                grey: String::from_str("888888"),
                grey_fg: String::from_str("999999"),
                grey_fg2: String::from_str("aaaaaa"),
                light_grey: String::from_str("bbbbbb"),
                red: String::from_str("ff0000"),
                baby_pink: String::from_str("ffaaaa"),
                pink: String::from_str("ff00ff"),
                line: String::from_str("444444"),
                green: String::from_str("00ff00"),
                vibrant_green: String::from_str("00ff88"),
                nord_blue: String::from_str("5e81ac"),
                blue: String::from_str("0000ff"),
                yellow: String::from_str("ffff00"),
                sun: String::from_str("ffaa00"),
                purple: String::from_str("aa00ff"),
                dark_purple: String::from_str("550088"),
                teal: String::from_str("00ffff"),
                orange: String::from_str("ff8800"),
                cyan: String::from_str("00aaff"),
                lightbg: String::from_str("eeeeee"),
            },
        ),
    }
}

/// Validates one target's template, the file having been read by the
/// shell: a missing or unreadable file fails with a message naming it, and
/// a template the renderer rejects fails with a message naming the target.
pub fn validate_target_template(
    engine: &mut tera::Tera,
    config_dir: &str,
    target: &Target,
    read: &ReadOutcome,
) -> (r: Result<(), String>)
    ensures
        read is NotFound ==> (r matches Err(m) && m@ == "Template file not found: "@
            + target.template@),
        read is ReadError ==> (r matches Err(m) && m@ == "Failed to read template file: "@
            + spec_path_join(spec_path_join(config_dir@, "templates"@), target.template@)),
        read is Content ==> (r matches Err(m) ==> m@ == "Template rendering failed for '"@
            + target.name@ + "'"@),
{
    let content = match read {
        ReadOutcome::NotFound => {
            let mut m = String::new();
            m.append("Template file not found: ");
            m.append(target.template.as_str());
            assert(m@ =~= "Template file not found: "@ + target.template@);
            return Err(m);
        },
        ReadOutcome::ReadError => {
            let templates = crate::strutil::path_join(config_dir, "templates");
            let path = crate::strutil::path_join(templates.as_str(), target.template.as_str());
            let mut m = String::new();
            m.append("Failed to read template file: ");
            m.append(path.as_str());
            assert(m@ =~= "Failed to read template file: "@ + spec_path_join(
                spec_path_join(config_dir@, "templates"@),
                target.template@,
            ));
            return Err(m);
        },
        ReadOutcome::Content(text) => text,
    };
    let dummy = create_dummy_palette();
    let context = match create_context(&dummy) {
        Ok(c) => c,
        Err(_) => unreached(),
    };
    let render_failed: bool = match add_raw_template(engine, target.template.as_str(), content.as_str()) {
        Ok(_) => {
            match render_template(engine, target.template.as_str(), &context) {
                Ok(_) => false,
                Err(_) => true,
            }
        },
        Err(_) => true,
    };
    if render_failed {
        let mut m = String::new();
        m.append("Template rendering failed for '");
        m.append(target.name.as_str());
        m.append("'");
        assert(m@ =~= "Template rendering failed for '"@ + target.name@ + "'"@);
        Err(m)
    } else {
        Ok(())
    }
}

/// The summary of a validation pass: nothing when every target validated,
/// else the failure count's message.
pub fn validation_summary(failed_count: usize) -> (r: Option<String>)
    ensures
        failed_count == 0 ==> r is None,
        failed_count > 0 ==> (r matches Some(m) && m@ == spec_dec(failed_count as int)
            + " target(s) failed validation"@),
{
    if failed_count == 0 {
        None
    } else {
        let mut m = dec_of(failed_count);
        m.append(" target(s) failed validation");
        assert(m@ =~= spec_dec(failed_count as int) + " target(s) failed validation"@);
        Some(m)
    }
}

/// The count of failed entries among validation results, each a target
/// name with its outcome.
pub fn count_failures(results: &Vec<(String, Result<(), String>)>) -> (r: usize)
    ensures
        r as int == results@.filter(|p: (String, Result<(), String>)| p.1 is Err).len(),
{
    let mut n: usize = 0;
    let mut i: usize = 0;
    proof {
        assert(results@.take(0).filter(|p: (String, Result<(), String>)| p.1 is Err) =~= Seq::<
            (String, Result<(), String>),
        >::empty());
    }
    while i < results.len()
        invariant
            i <= results@.len(),
            n as int == results@.take(i as int).filter(
                |p: (String, Result<(), String>)| p.1 is Err,
            ).len(),
            n <= i,
        decreases results@.len() - i,
    {
        proof {
            assert(results@.take(i + 1).drop_last() =~= results@.take(i as int));
            reveal_with_fuel(Seq::filter, 2);
        }
        if results[i].1.is_err() {
            n = n + 1;
        }
        i = i + 1;
    }
    proof {
        assert(results@.take(results@.len() as int) =~= results@);
    }
    n
}

} // verus!
