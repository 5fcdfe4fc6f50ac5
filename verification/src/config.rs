//! Build configurations: values stored under paths (such as `system` or
//! `modName`), and the configuration strings a user writes on the command line.
use vstd::prelude::*;

use crate::error::DevError;
use crate::keys::{first_at, first_index, keys_of, position_of, Keyed, lemma_first_index, lemma_first_index_is, lemma_first_index_push, lemma_first_index_push_new};
use crate::text::{contains_char, has_char, lemma_pieces_at_first_sep, lemma_pieces_without_sep, join_texts, joined, lemma_pieces_nonempty, pieces, split_text, text_of};

verus! {

/// One setting of a configuration.
#[derive(Debug, Clone, PartialEq, Eq)]
pub struct ConfigEntry {
    pub path: String,
    pub value: String,
}

/// A configuration: the value under a path is that of the first entry with
/// that path.
#[derive(Debug, Clone, PartialEq, Eq)]
pub struct BuildConfig {
    pub entries: Vec<ConfigEntry>,
}

/// The path under which a buildable's target system is stored.
pub open spec fn system_path() -> Seq<char> {
    "system"@
}

/// The path under which a buildable's module name is stored.
pub open spec fn mod_name_path() -> Seq<char> {
    "modName"@
}

/// The target system a new buildable gets when its configuration names none.
pub open spec fn default_system() -> Seq<char> {
    "x86_64-linux-gnu"@
}

impl Keyed for ConfigEntry {
    open spec fn key_view(&self) -> Seq<char> {
        self.path@
    }

    fn key(&self) -> (r: &str) {
        self.path.as_str()
    }
}

impl BuildConfig {
    /// The paths of the entries, in order.
    pub open spec fn paths(self) -> Seq<Seq<char>> {
        keys_of(self.entries@)
    }
}

impl View for BuildConfig {
    type V = Map<Seq<char>, Seq<char>>;

    open spec fn view(&self) -> Map<Seq<char>, Seq<char>> {
        Map::new(
            |p: Seq<char>| self.paths().contains(p),
            |p: Seq<char>| self.entries@[first_index(self.paths(), p)].value@,
        )
    }
}

/// The path of a `path=value` setting: what comes before its first `=`.
pub open spec fn setting_path(w: Seq<char>) -> Seq<char> {
    pieces(w, '=')[0]
}

/// The value of a `path=value` setting: what comes after its first `=`.
pub open spec fn setting_value(w: Seq<char>) -> Seq<char> {
    joined(pieces(w, '=').drop_first(), seq!['='])
}

/// The configuration that the settings `ws` describe, read in order (a later
/// setting of a path replaces an earlier one; empty words are skipped), or the
/// first setting that has no `=`.
pub open spec fn settings_config(ws: Seq<Seq<char>>) -> Result<Map<Seq<char>, Seq<char>>, Seq<char>>
    decreases ws.len(),
{
    if ws.len() == 0 {
        Ok(Map::empty())
    } else {
        match settings_config(ws.drop_last()) {
            Err(e) => Err(e),
            Ok(m) => {
                let w = ws.last();
                if w.len() == 0 {
                    Ok(m)
                } else if !has_char(w, '=') {
                    Err(w)
                } else {
                    Ok(m.insert(setting_path(w), setting_value(w)))
                }
            },
        }
    }
}

/// The order in which the settings `ws` first name their paths (the order
/// of the entries of the configuration they describe).
pub open spec fn settings_paths(ws: Seq<Seq<char>>) -> Seq<Seq<char>>
    decreases ws.len(),
{
    if ws.len() == 0 {
        Seq::<Seq<char>>::empty()
    } else {
        let p = settings_paths(ws.drop_last());
        let w = ws.last();
        if w.len() == 0 || !has_char(w, '=') || p.contains(setting_path(w)) {
            p
        } else {
            p.push(setting_path(w))
        }
    }
}

/// The order of the entries of the configuration `dev add` gives a new
/// buildable (see `config_argument_spec`): the paths in the order the
/// argument first names them, then the target system if it named none.
pub open spec fn config_argument_paths(arg: Option<Seq<char>>) -> Seq<Seq<char>> {
    match arg {
        None => seq![system_path()],
        Some(a) => {
            let text = if has_char(a, '=') {
                a
            } else {
                mod_name_path() + seq!['='] + a
            };
            let ps = settings_paths(pieces(text, ' '));
            if ps.contains(system_path()) {
                ps
            } else {
                ps.push(system_path())
            }
        },
    }
}

/// The configuration that a configuration string describes: its words,
/// separated by single spaces, are `path=value` settings.
pub open spec fn config_string_spec(s: Seq<char>) -> Result<Map<Seq<char>, Seq<char>>, Seq<char>> {
    settings_config(pieces(s, ' '))
}

/// The configuration that `dev add` gives a new buildable for its optional
/// configuration argument: a bare word is its module name, and the default
/// target system is filled in where none is given.
pub open spec fn config_argument_spec(arg: Option<Seq<char>>) -> Result<
    Map<Seq<char>, Seq<char>>,
    Seq<char>,
> {
    match arg {
        None => Ok(Map::<Seq<char>, Seq<char>>::empty().insert(system_path(), default_system())),
        Some(a) => {
            let text = if has_char(a, '=') {
                a
            } else {
                mod_name_path() + seq!['='] + a
            };
            match config_string_spec(text) {
                Err(e) => Err(e),
                Ok(m) => if m.contains_key(system_path()) {
                    Ok(m)
                } else {
                    Ok(m.insert(system_path(), default_system()))
                },
            }
        },
    }
}

proof fn lemma_settings_error_stays(ws: Seq<Seq<char>>, i: int)
    requires
        0 <= i <= ws.len(),
        settings_config(ws.take(i)) is Err,
    ensures
        settings_config(ws) == settings_config(ws.take(i)),
    decreases ws.len() - i,
{
    if i < ws.len() {
        assert(ws.take(i + 1).drop_last() =~= ws.take(i));
        lemma_settings_error_stays(ws, i + 1);
    } else {
        assert(ws.take(i) =~= ws);
    }
}

impl BuildConfig {
    /// A configuration with no settings.
    pub fn new() -> (r: BuildConfig)
        ensures
            r@ == Map::<Seq<char>, Seq<char>>::empty(),
            r.paths() == Seq::<Seq<char>>::empty(),
    {
        let r = BuildConfig { entries: Vec::new() };
        assert(r@ =~= Map::<Seq<char>, Seq<char>>::empty());
        assert(r.paths() =~= Seq::<Seq<char>>::empty());
        r
    }

    /// The first entry stored under `path`, if any.
    pub fn position(&self, path: &str) -> (r: Option<usize>)
        ensures
            r matches Some(i) ==> first_at(self.paths(), path@, i as int),
            r is None ==> !self.paths().contains(path@),
    {
        position_of(&self.entries, path)
    }

    /// The value stored under `path`, if any.
    pub fn get_path(&self, path: &str) -> (r: Option<String>)
        ensures
            r is None <==> !self@.contains_key(path@),
            r matches Some(v) ==> self@[path@] == v@,
    {
        match self.position(path) {
            Some(i) => {
                proof {
                    lemma_first_index_is(self.paths(), path@, i as int);
                }
                Some(self.entries[i].value.clone())
            },
            None => None,
        }
    }

    /// Stores `value` under `path`, replacing what was stored there.
    pub fn set_path(&mut self, path: &str, value: &str)
        ensures
            final(self)@ == old(self)@.insert(path@, value@),
            final(self).paths() == (if old(self).paths().contains(path@) {
                old(self).paths()
            } else {
                old(self).paths().push(path@)
            }),
    {
        let entry = ConfigEntry { path: text_of(path), value: text_of(value) };
        match self.position(path) {
            Some(i) => {
                let ghost old_paths = self.paths();
                proof {
                    lemma_first_index_is(old_paths, path@, i as int);
                }
                self.entries.set(i, entry);
                proof {
                    assert(self.paths() =~= old_paths);
                    assert forall|p: Seq<char>| #[trigger] self@.contains_key(p) implies p == path@
                        || self@[p] == old(self)@[p] by {
                        if p != path@ {
                            lemma_first_index(old_paths, p);
                        }
                    }
                }
            },
            None => {
                let ghost old_paths = self.paths();
                self.entries.push(entry);
                proof {
                    assert(self.paths() =~= old_paths.push(path@));
                    lemma_first_index_push_new(old_paths, path@);
                    assert forall|p: Seq<char>| p != path@ implies (self.paths().contains(p)
                        <==> old_paths.contains(p)) by {
                        if self.paths().contains(p) {
                            let k = choose|k: int|
                                0 <= k < self.paths().len() && self.paths()[k] == p;
                            assert(old_paths[k] == p);
                        }
                        if old_paths.contains(p) {
                            let k = choose|k: int| 0 <= k < old_paths.len() && old_paths[k] == p;
                            assert(self.paths()[k] == p);
                        }
                    }
                    assert forall|p: Seq<char>|
                        p != path@ && #[trigger] old_paths.contains(p) implies self@[p] == old(
                            self,
                        )@[p] by {
                        lemma_first_index_push(old_paths, path@, p);
                        lemma_first_index(old_paths, p);
                    }
                }
            },
        }
        assert(self@ =~= old(self)@.insert(path@, value@));
    }

    /// Reads a configuration string: words separated by single spaces, each a
    /// `path=value` setting (empty words are skipped); a later setting of a
    /// path replaces an earlier one.
    pub fn parse_settings(s: &str) -> (r: Result<BuildConfig, DevError>)
        ensures
            config_string_spec(s@) is Ok <==> r is Ok,
            r matches Ok(c) ==> config_string_spec(s@) == Ok::<
                Map<Seq<char>, Seq<char>>,
                Seq<char>,
            >(c@),
            r matches Ok(c) ==> c.paths() == settings_paths(pieces(s@, ' ')),
            r matches Err(e) ==> (e matches DevError::MalformedSetting(w) && config_string_spec(s@)
                == Err::<Map<Seq<char>, Seq<char>>, Seq<char>>(w@)),
    {
        let words = split_text(s, ' ');
        let ghost ws = words.deep_view();
        let mut config = BuildConfig::new();
        let n = words.len();
        let mut i: usize = 0;
        proof {
            assert(ws.take(0) =~= Seq::<Seq<char>>::empty());
        }
        while i < n
            invariant
                n == words.len(),
                ws == words.deep_view(),
                ws == pieces(s@, ' '),
                i <= n,
                settings_config(ws.take(i as int)) == Ok::<Map<Seq<char>, Seq<char>>, Seq<char>>(
                    config@,
                ),
                config.paths() == settings_paths(ws.take(i as int)),
            decreases n - i,
        {
            let w = words[i].as_str();
            proof {
                assert(ws.take(i + 1).drop_last() =~= ws.take(i as int));
                assert(ws.take(i + 1).last() == w@);
            }
            if w.unicode_len() == 0 {
            } else if !contains_char(w, '=') {
                proof {
                    assert(settings_config(ws.take(i + 1)) == Err::<
                        Map<Seq<char>, Seq<char>>,
                        Seq<char>,
                    >(w@));
                    lemma_settings_error_stays(ws, i + 1);
                }
                return Err(DevError::MalformedSetting(text_of(w)));
            } else {
                let kv = split_text(w, '=');
                proof {
                    lemma_pieces_nonempty(w@, '=');
                }
                let value = join_texts(&kv, 1, "=");
                proof {
                    reveal_strlit("=");
                    assert("="@ =~= seq!['=']);
                }
                config.set_path(kv[0].as_str(), value.as_str());
            }
            i = i + 1;
        }
        proof {
            assert(ws.take(n as int) =~= ws);
        }
        Ok(config)
    }
}

/// The text of an optional argument.
pub open spec fn text_option(arg: Option<&str>) -> Option<Seq<char>> {
    match arg {
        Some(a) => Some(a@),
        None => None,
    }
}

/// The configuration `dev add` gives a new buildable: with no argument, just
/// the default target system; a bare word (one without `=`) is the module
/// name; otherwise the argument is a configuration string. The default target
/// system is filled in when the configuration names none.
pub fn config_from_argument(arg: Option<&str>) -> (r: Result<BuildConfig, DevError>)
    ensures
        config_argument_spec(text_option(arg)) is Ok <==> r is Ok,
        r matches Ok(c) ==> config_argument_spec(text_option(arg)) == Ok::<
            Map<Seq<char>, Seq<char>>,
            Seq<char>,
        >(c@),
        r matches Ok(c) ==> c.paths() == config_argument_paths(text_option(arg)),
        r matches Err(e) ==> (e matches DevError::MalformedSetting(w) && config_argument_spec(
            text_option(arg),
        ) == Err::<Map<Seq<char>, Seq<char>>, Seq<char>>(w@)),
{
    let system = "system";
    let default = "x86_64-linux-gnu";
    match arg {
        None => {
            let mut config = BuildConfig::new();
            config.set_path(system, default);
            assert(config.paths() =~= seq![system_path()]);
            Ok(config)
        },
        Some(a) => {
            let text = if contains_char(a, '=') {
                text_of(a)
            } else {
                let mut t = text_of("modName=");
                t.append(a);
                proof {
                    reveal_strlit("modName=");
                    reveal_strlit("modName");
                    assert("modName="@ =~= "modName"@ + seq!['=']);
                }
                t
            };
            let mut config = BuildConfig::parse_settings(text.as_str())?;
            assert(config@.contains_key(system_path()) <==> config.paths().contains(
                system_path(),
            ));
            if config.get_path(system).is_none() {
                config.set_path(system, default);
            }
            Ok(config)
        },
    }
}

/// Law: every configuration `dev add` accepts has a target system: the one
/// its argument names, or else the default system; the other settings are
/// those the argument describes, and the system is among its entries.
pub proof fn law_added_config_has_system(arg: Option<Seq<char>>)
    ensures
        config_argument_spec(arg) matches Ok(m) ==> m.contains_key(system_path())
            && config_argument_paths(arg).contains(system_path()),
        arg matches Some(a) ==> (has_char(a, '=') ==> (config_string_spec(a) matches Ok(m0) ==> (
        !m0.contains_key(system_path()) ==> config_argument_spec(arg) == Ok::<
            Map<Seq<char>, Seq<char>>,
            Seq<char>,
        >(m0.insert(system_path(), default_system()))))),
        arg matches Some(a) ==> (has_char(a, '=') ==> (config_string_spec(a) matches Ok(m0) ==> (
        m0.contains_key(system_path()) ==> config_argument_spec(arg) == Ok::<
            Map<Seq<char>, Seq<char>>,
            Seq<char>,
        >(m0)))),
        arg is None ==> config_argument_spec(arg) == Ok::<Map<Seq<char>, Seq<char>>, Seq<char>>(
            map![system_path() => default_system()],
        ),
{
    match arg {
        None => {
            assert(Map::<Seq<char>, Seq<char>>::empty().insert(system_path(), default_system())
                =~= map![system_path() => default_system()]);
            assert(seq![system_path()][0] == system_path());
        },
        Some(a) => {
            let text = if has_char(a, '=') {
                a
            } else {
                mod_name_path() + seq!['='] + a
            };
            let ps = settings_paths(pieces(text, ' '));
            if !ps.contains(system_path()) {
                assert(ps.push(system_path())[ps.len() as int] == system_path());
            }
        },
    }
}

/// Law: a bare word given to `dev add` (no `=`, no space, not empty) is the
/// new buildable's module name, and the target system is the default one.
pub proof fn law_bare_word_is_module_name(w: Seq<char>)
    requires
        w.len() > 0,
        !has_char(w, '='),
        !has_char(w, ' '),
    ensures
        config_argument_spec(Some(w)) == Ok::<Map<Seq<char>, Seq<char>>, Seq<char>>(
            map![mod_name_path() => w, system_path() => default_system()],
        ),
{
    reveal_strlit("modName");
    reveal_strlit("system");
    let text = mod_name_path() + seq!['='] + w;
    assert(!has_char(text, ' ')) by {
        if has_char(text, ' ') {
            let k = choose|k: int| 0 <= k < text.len() && text[k] == ' ';
            if k >= 8 {
                assert(w[k - 8] == ' ');
            }
        }
    }
    lemma_pieces_without_sep(text, ' ');
    let ws = pieces(text, ' ');
    assert(ws.drop_last() =~= Seq::<Seq<char>>::empty());
    assert(has_char(text, '=')) by {
        assert(text[7] == '=');
    }
    assert forall|j: int| 0 <= j < 7 implies text[j] != '=' by {}
    lemma_pieces_at_first_sep(text, '=', 7);
    assert(text.skip(8) =~= w);
    assert(text.take(7) =~= mod_name_path());
    lemma_pieces_without_sep(w, '=');
    assert(pieces(text, '=').drop_first() =~= seq![w]);
    assert(setting_path(text) == mod_name_path());
    assert(setting_value(text) == w);
    let m = Map::<Seq<char>, Seq<char>>::empty().insert(mod_name_path(), w);
    assert(ws.len() == 1 && ws.last() == text);
    assert(settings_config(ws.drop_last()) == Ok::<Map<Seq<char>, Seq<char>>, Seq<char>>(
        Map::empty(),
    ));
    assert(text.len() > 0);
    assert(settings_config(ws) == Ok::<Map<Seq<char>, Seq<char>>, Seq<char>>(m));
    assert(mod_name_path() != system_path()) by {
        assert(mod_name_path().len() != system_path().len());
    }
    assert(!m.contains_key(system_path()));
    assert(m.insert(system_path(), default_system()) =~= map![mod_name_path() => w, system_path() => default_system()]);
}

} // verus!
