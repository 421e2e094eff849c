//! The settings file: where it lives, what its default text is, and how a
//! line of it is read.
use vstd::prelude::*;
use vstd::string::*;
use crate::path::{path_join, join_path};
use crate::text::{
    before_char, before_first, find_char, first_index, join2, join3, owned, pieces, slice_chars,
    split_on, str_eq, strip_char_end, strip_char_start, strip_end, strip_start, trim, trim_str,
    views,
};

verus! {

/// The settings of the viewer.
#[derive(Clone, Debug, PartialEq, Eq)]
pub struct Config {
    pub cd_on_quit: bool,
    pub markdown_viewer: String,
}

impl View for Config {
    type V = (bool, Seq<char>);

    open spec fn view(&self) -> (bool, Seq<char>) {
        (self.cd_on_quit, self.markdown_viewer@)
    }
}

/// The text written to a settings file that does not exist yet.
pub fn default_config_content() -> (r: &'static str)
    ensures
        r@ == "cd_on_quit = false\nmarkdown_viewer = \"treemd\"\n"@,
{
    "cd_on_quit = false\nmarkdown_viewer = \"treemd\"\n"
}

/// The settings before any line is read.
pub open spec fn default_settings() -> (bool, Seq<char>) {
    (false, "treemd"@)
}

/// What one line of the settings file does to the settings read so far.
/// Blank lines and `#` comments change nothing; a line without `=` is an
/// error; a `#` ends the value; unknown keys are ignored.
pub open spec fn line_effect(st: (bool, Seq<char>), line: Seq<char>) -> Result<(bool, Seq<char>), Seq<char>> {
    let t = trim(line);
    if t.len() == 0 || t[0] == '#' {
        Ok(st)
    } else {
        match first_index(t, '=') {
            None => Err("invalid config line: "@ + t),
            Some(k) => {
                let key = trim(t.take(k));
                let value = trim(before_char(t.skip(k + 1), '#'));
                if key == "cd_on_quit"@ {
                    if value == "true"@ {
                        Ok((true, st.1))
                    } else if value == "false"@ {
                        Ok((false, st.1))
                    } else {
                        Err("cd_on_quit must be true or false, got '"@ + value + "'"@)
                    }
                } else if key == "markdown_viewer"@ {
                    let unquoted = strip_end(strip_start(value, '"'), '"');
                    if unquoted.len() > 0 {
                        Ok((st.0, unquoted))
                    } else {
                        Ok(st)
                    }
                } else {
                    Ok(st)
                }
            },
        }
    }
}

/// The settings after reading `lines` in order; the first error stops the read.
pub open spec fn settings_after(lines: Seq<Seq<char>>) -> Result<(bool, Seq<char>), Seq<char>>
    decreases lines.len(),
{
    if lines.len() == 0 {
        Ok(default_settings())
    } else {
        match settings_after(lines.drop_last()) {
            Ok(st) => line_effect(st, lines.last()),
            Err(e) => Err(e),
        }
    }
}

/// The settings a file with text `content` holds.
pub open spec fn parsed_config(content: Seq<char>) -> Result<(bool, Seq<char>), Seq<char>> {
    settings_after(pieces(content, '\n'))
}

/// Once reading fails, reading more lines gives the same error.
proof fn lemma_error_sticks(lines: Seq<Seq<char>>, i: int)
    requires
        0 <= i <= lines.len(),
        settings_after(lines.take(i)) is Err,
    ensures
        settings_after(lines) == settings_after(lines.take(i)),
    decreases lines.len() - i,
{
    if i < lines.len() {
        assert(lines.take(i + 1).drop_last() =~= lines.take(i));
        lemma_error_sticks(lines, i + 1);
    } else {
        assert(lines.take(i) =~= lines);
    }
}

/// Applies one line of the settings file.
fn apply_line(cd: bool, viewer: String, line: &str) -> (r: Result<(bool, String), String>)
    ensures
        match r {
            Ok((c, v)) => line_effect((cd, viewer@), line@) == Ok::<(bool, Seq<char>), Seq<char>>((c, v@)),
            Err(e) => line_effect((cd, viewer@), line@) == Err::<(bool, Seq<char>), Seq<char>>(e@),
        },
{
    let t = trim_str(line);
    let n = t.unicode_len();
    if n == 0 || t.get_char(0) == '#' {
        return Ok((cd, viewer));
    }
    match find_char(t.as_str(), '=') {
        None => Err(join2("invalid config line: ", t.as_str())),
        Some(k) => {
            let key_raw = slice_chars(t.as_str(), 0, k);
            let key = trim_str(key_raw.as_str());
            let raw_value = slice_chars(t.as_str(), k + 1, n);
            assert(raw_value@ =~= t@.skip(k + 1));
            let before = before_first(raw_value.as_str(), '#');
            let value = trim_str(before.as_str());
            if str_eq(key.as_str(), "cd_on_quit") {
                if str_eq(value.as_str(), "true") {
                    Ok((true, viewer))
                } else if str_eq(value.as_str(), "false") {
                    Ok((false, viewer))
                } else {
                    Err(join3("cd_on_quit must be true or false, got '", value.as_str(), "'"))
                }
            } else if str_eq(key.as_str(), "markdown_viewer") {
                let front = strip_char_start(value.as_str(), '"');
                let unquoted = strip_char_end(front.as_str(), '"');
                if unquoted.unicode_len() > 0 {
                    Ok((cd, unquoted))
                } else {
                    Ok((cd, viewer))
                }
            } else {
                Ok((cd, viewer))
            }
        },
    }
}

/// Reads the settings from the text of a settings file.
pub fn parse_config(content: &str) -> (r: Result<Config, String>)
    ensures
        match r {
            Ok(c) => parsed_config(content@) == Ok::<(bool, Seq<char>), Seq<char>>(c@),
            Err(e) => parsed_config(content@) == Err::<(bool, Seq<char>), Seq<char>>(e@),
        },
{
    let lines = split_on(content, '\n');
    let ghost ls = views(lines@);
    let mut cd = false;
    let mut viewer = owned("treemd");
    let mut i: usize = 0;
    assert(ls.take(0) =~= Seq::<Seq<char>>::empty());
    while i < lines.len()
        invariant
            ls == views(lines@),
            ls == pieces(content@, '\n'),
            i <= lines@.len(),
            settings_after(ls.take(i as int)) == Ok::<(bool, Seq<char>), Seq<char>>((cd, viewer@)),
        decreases lines@.len() - i,
    {
        assert(ls.take(i + 1).drop_last() =~= ls.take(i as int));
        assert(ls[i as int] == lines@[i as int]@);
        match apply_line(cd, viewer, lines[i].as_str()) {
            Ok((c, v)) => {
                cd = c;
                viewer = v;
            },
            Err(e) => {
                proof {
                    lemma_error_sticks(ls, i + 1);
                }
                return Err(e);
            },
        }
        i = i + 1;
    }
    assert(ls.take(lines@.len() as int) =~= ls);
    Ok(Config { cd_on_quit: cd, markdown_viewer: viewer })
}

/// The first of the candidates that is set and not empty.
pub open spec fn nonempty(o: Option<Seq<char>>) -> bool {
    o matches Some(s) && s.len() > 0
}

/// Where the settings file is: `MINIMUM_VIEWER_CONFIG` if set, else
/// `mmv/config.toml` under `XDG_CONFIG_HOME`, else under `$HOME/.config`.
pub open spec fn config_path(explicit: Option<Seq<char>>, xdg: Option<Seq<char>>, home: Option<Seq<char>>) -> Result<Seq<char>, Seq<char>> {
    if nonempty(explicit) {
        Ok(explicit.unwrap())
    } else if nonempty(xdg) {
        Ok(path_join(xdg.unwrap(), "mmv/config.toml"@))
    } else if nonempty(home) {
        Ok(path_join(path_join(home.unwrap(), ".config"@), "mmv/config.toml"@))
    } else {
        Err("HOME is not set and no config override was provided"@)
    }
}

/// Where the last-directory file is: `MINIMUM_VIEWER_LAST_DIR` if set, else
/// `mmv/lastdir` under `XDG_STATE_HOME`, else under `$HOME/.local/state`.
pub open spec fn lastdir_path(explicit: Option<Seq<char>>, xdg: Option<Seq<char>>, home: Option<Seq<char>>) -> Result<Seq<char>, Seq<char>> {
    if nonempty(explicit) {
        Ok(explicit.unwrap())
    } else if nonempty(xdg) {
        Ok(path_join(xdg.unwrap(), "mmv/lastdir"@))
    } else if nonempty(home) {
        Ok(path_join(path_join(home.unwrap(), ".local/state"@), "mmv/lastdir"@))
    } else {
        Err("HOME is not set and no lastdir override was provided"@)
    }
}

fn is_nonempty(o: &Option<String>) -> (r: bool)
    ensures
        r == nonempty(crate::text::opt_view(*o)),
{
    match o {
        Some(s) => s.unicode_len() > 0,
        None => false,
    }
}

/// Locates the settings file from the values of `MINIMUM_VIEWER_CONFIG`,
/// `XDG_CONFIG_HOME` and `HOME`.
pub fn resolve_config_path_from(explicit: Option<String>, xdg_config_home: Option<String>, home: Option<String>) -> (r: Result<String, String>)
    ensures
        match r {
            Ok(p) => config_path(crate::text::opt_view(explicit), crate::text::opt_view(xdg_config_home), crate::text::opt_view(home)) == Ok::<Seq<char>, Seq<char>>(p@),
            Err(e) => config_path(crate::text::opt_view(explicit), crate::text::opt_view(xdg_config_home), crate::text::opt_view(home)) == Err::<Seq<char>, Seq<char>>(e@),
        },
{
    if is_nonempty(&explicit) {
        return Ok(explicit.unwrap());
    }
    if is_nonempty(&xdg_config_home) {
        let x = xdg_config_home.unwrap();
        return Ok(join_path(x.as_str(), "mmv/config.toml"));
    }
    if is_nonempty(&home) {
        let h = home.unwrap();
        let dot = join_path(h.as_str(), ".config");
        return Ok(join_path(dot.as_str(), "mmv/config.toml"));
    }
    Err(owned("HOME is not set and no config override was provided"))
}

/// Locates the last-directory file from the values of
/// `MINIMUM_VIEWER_LAST_DIR`, `XDG_STATE_HOME` and `HOME`.
pub fn resolve_lastdir_path_from(explicit: Option<String>, xdg_state_home: Option<String>, home: Option<String>) -> (r: Result<String, String>)
    ensures
        match r {
            Ok(p) => lastdir_path(crate::text::opt_view(explicit), crate::text::opt_view(xdg_state_home), crate::text::opt_view(home)) == Ok::<Seq<char>, Seq<char>>(p@),
            Err(e) => lastdir_path(crate::text::opt_view(explicit), crate::text::opt_view(xdg_state_home), crate::text::opt_view(home)) == Err::<Seq<char>, Seq<char>>(e@),
        },
{
    if is_nonempty(&explicit) {
        return Ok(explicit.unwrap());
    }
    if is_nonempty(&xdg_state_home) {
        let x = xdg_state_home.unwrap();
        return Ok(join_path(x.as_str(), "mmv/lastdir"));
    }
    if is_nonempty(&home) {
        let h = home.unwrap();
        let dot = join_path(h.as_str(), ".local/state");
        return Ok(join_path(dot.as_str(), "mmv/lastdir"));
    }
    Err(owned("HOME is not set and no lastdir override was provided"))
}

} // verus!
