//! The development environment's persistent data: the registered buildables
//! (modules under development), the flake they are built from, and the
//! environment's own configuration.
use vstd::prelude::*;

use crate::config::{mod_name_path, BuildConfig};
use crate::error::DevError;
use crate::keys::{
    all_distinct, first_at, first_index, keys_of, position_of, Keyed, lemma_first_index, lemma_first_index_is,
    lemma_first_index_push_new,
};
use crate::text::text_of;

verus! {

/// A module under development, with how to build it.
#[derive(Debug, Clone, PartialEq, Eq)]
pub struct Buildable {
    pub name: String,
    pub active: bool,
    pub config: BuildConfig,
    pub src_path: String,
    pub command: String,
}

impl Keyed for Buildable {
    open spec fn key_view(&self) -> Seq<char> {
        self.name@
    }

    fn key(&self) -> (r: &str) {
        self.name.as_str()
    }
}

/// Everything the development module keeps between runs.
#[derive(Debug, Clone, PartialEq, Eq)]
pub struct DevModuleData {
    pub last_build: u32,
    pub mize_flake: String,
    pub buildables: Vec<Buildable>,
    pub config: BuildConfig,
}

/// The names of the buildables, in order.
pub open spec fn names_of(bs: Seq<Buildable>) -> Seq<Seq<char>> {
    keys_of(bs)
}

/// The registry after adding `b`, or nothing when its name is taken.
pub open spec fn registry_add(bs: Seq<Buildable>, b: Buildable) -> Option<Seq<Buildable>> {
    if names_of(bs).contains(b.name@) {
        None
    } else {
        Some(bs.push(b))
    }
}

/// The registry after removing the first buildable called `name`, or nothing
/// when there is none.
pub open spec fn registry_remove(bs: Seq<Buildable>, name: Seq<char>) -> Option<Seq<Buildable>> {
    if names_of(bs).contains(name) {
        Some(bs.remove(first_index(names_of(bs), name)))
    } else {
        None
    }
}

/// The flake that new environments build from.
pub open spec fn default_flake() -> Seq<char> {
    "github:c2vi/mize"@
}

/// The nix expression whose value is the shell command that builds and
/// installs module `mod_name` out of flake `flake`.
pub open spec fn build_command_expr_spec(flake: Seq<char>, mod_name: Seq<char>) -> Seq<char> {
    "\n            let \n                mize = builtins.getFlake \""@ + flake
        + "\";\n                mizeBuildPhase = mize.packages.x86_64-linux.mizeFor.x86_64-linux-gnu.modules."@
        + mod_name
        + ".mizeBuildPhase;\n                mizeInstallPhase = mize.packages.x86_64-linux.mizeFor.x86_64-linux-gnu.modules."@
        + mod_name + ".mizeInstallPhase;\n            in mizeBuildPhase + mizeInstallPhase\n        "@
}

/// The text of a boolean, as Rust prints it.
pub open spec fn bool_text(b: bool) -> Seq<char> {
    if b {
        "true"@
    } else {
        "false"@
    }
}

/// The line `dev list` prints for a buildable.
pub open spec fn list_line_spec(b: Buildable) -> Seq<char> {
    b.name@ + " \t\t active:"@ + bool_text(b.active) + " \t\t at:"@ + b.src_path@
}

impl Default for DevModuleData {
    /// A fresh environment: no buildables, the project's flake, an empty
    /// configuration.
    fn default() -> (r: DevModuleData)
        ensures
            r.last_build == 0,
            r.mize_flake@ == default_flake(),
            r.buildables@.len() == 0,
            r.config@ == Map::<Seq<char>, Seq<char>>::empty(),
    {
        DevModuleData {
            last_build: 0,
            buildables: Vec::new(),
            mize_flake: text_of("github:c2vi/mize"),
            config: BuildConfig::new(),
        }
    }
}

/// The text of a boolean, as Rust prints it.
pub fn bool_label(b: bool) -> (r: &'static str)
    ensures
        r@ == bool_text(b),
{
    if b {
        "true"
    } else {
        "false"
    }
}

impl Buildable {
    /// The line `dev list` prints for this buildable.
    pub fn list_line(&self) -> (r: String)
        ensures
            r@ == list_line_spec(*self),
    {
        let mut r = text_of(self.name.as_str());
        r.append(" \t\t active:");
        r.append(bool_label(self.active));
        r.append(" \t\t at:");
        r.append(self.src_path.as_str());
        r
    }
}

/// The nix expression whose value is the shell command that builds and
/// installs module `mod_name` out of flake `flake`.
pub fn build_command_expr(flake: &str, mod_name: &str) -> (r: String)
    ensures
        r@ == build_command_expr_spec(flake@, mod_name@),
{
    let mut r = text_of("\n            let \n                mize = builtins.getFlake \"");
    r.append(flake);
    r.append(
        "\";\n                mizeBuildPhase = mize.packages.x86_64-linux.mizeFor.x86_64-linux-gnu.modules.",
    );
    r.append(mod_name);
    r.append(
        ".mizeBuildPhase;\n                mizeInstallPhase = mize.packages.x86_64-linux.mizeFor.x86_64-linux-gnu.modules.",
    );
    r.append(mod_name);
    r.append(".mizeInstallPhase;\n            in mizeBuildPhase + mizeInstallPhase\n        ");
    r
}

impl DevModuleData {
    /// The names of the registered buildables, in order.
    pub open spec fn names(self) -> Seq<Seq<char>> {
        names_of(self.buildables@)
    }

    /// The position of the first buildable called `name`, if any.
    pub fn position(&self, name: &str) -> (r: Option<usize>)
        ensures
            r matches Some(i) ==> first_at(self.names(), name@, i as int),
            r is None ==> !self.names().contains(name@),
    {
        position_of(&self.buildables, name)
    }

    /// Whether a buildable called `name` is registered.
    pub fn has_buildable(&self, name: &str) -> (r: bool)
        ensures
            r == self.names().contains(name@),
    {
        self.position(name).is_some()
    }

    /// The first buildable called `name`.
    pub fn find_buildable(&self, name: &str) -> (r: Result<&Buildable, DevError>)
        ensures
            r is Ok <==> self.names().contains(name@),
            r matches Ok(b) ==> *b == self.buildables@[first_index(self.names(), name@)],
            r matches Err(e) ==> (e matches DevError::NoBuildableNamed(n) && n@ == name@),
    {
        match self.position(name) {
            Some(i) => {
                proof {
                    lemma_first_index_is(self.names(), name@, i as int);
                }
                Ok(&self.buildables[i])
            },
            None => Err(DevError::NoBuildableNamed(text_of(name))),
        }
    }

    /// The nix expression that yields the build command of a new buildable
    /// called `name` with configuration `config`; refused when the name is
    /// taken or the configuration names no module.
    pub fn command_expr_for(&self, name: &str, config: &BuildConfig) -> (r: Result<
        String,
        DevError,
    >)
        ensures
            self.names().contains(name@) ==> (r matches Err(e) && e matches DevError::DuplicateBuildable(n)
                && n@ == name@),
            !self.names().contains(name@) && !config@.contains_key(mod_name_path()) ==> (r matches Err(
                e,
            ) && e matches DevError::MissingConfigAttribute(p) && p@ == mod_name_path()),
            !self.names().contains(name@) && config@.contains_key(mod_name_path()) ==> (r matches Ok(
                expr,
            ) && expr@ == build_command_expr_spec(
                self.mize_flake@,
                config@[mod_name_path()],
            )),
    {
        if self.has_buildable(name) {
            return Err(DevError::DuplicateBuildable(text_of(name)));
        }
        match config.get_path("modName") {
            None => Err(DevError::MissingConfigAttribute(text_of("modName"))),
            Some(mod_name) => Ok(build_command_expr(self.mize_flake.as_str(), mod_name.as_str())),
        }
    }

    /// Registers a new, active buildable; refused, with nothing changed, when
    /// the name is taken or the configuration names no module.
    pub fn add_buildable(
        &mut self,
        name: String,
        src_path: String,
        config: BuildConfig,
        command: String,
    ) -> (r: Result<(), DevError>)
        ensures
            final(self).last_build == old(self).last_build,
            final(self).mize_flake == old(self).mize_flake,
            final(self).config == old(self).config,
            old(self).names().contains(name@) ==> r == Err::<(), DevError>(
                DevError::DuplicateBuildable(name),
            ),
            !old(self).names().contains(name@) && !config@.contains_key(mod_name_path()) ==> (r matches Err(
                e,
            ) && e matches DevError::MissingConfigAttribute(p) && p@ == mod_name_path()),
            !old(self).names().contains(name@) && config@.contains_key(mod_name_path()) ==> r is Ok,
            r is Ok ==> registry_add(
                old(self).buildables@,
                (Buildable { name, active: true, config, src_path, command }),
            ) == Some(final(self).buildables@),
            r is Err ==> final(self).buildables@ == old(self).buildables@,
    {
        if self.has_buildable(name.as_str()) {
            return Err(DevError::DuplicateBuildable(name));
        }
        if config.get_path("modName").is_none() {
            return Err(DevError::MissingConfigAttribute(text_of("modName")));
        }
        let buildable = Buildable { name, active: true, config, src_path, command };
        self.buildables.push(buildable);
        Ok(())
    }

    /// Removes the first buildable called `name`; refused, with nothing
    /// changed, when there is none.
    pub fn remove_buildable(&mut self, name: &str) -> (r: Result<(), DevError>)
        ensures
            final(self).last_build == old(self).last_build,
            final(self).mize_flake == old(self).mize_flake,
            final(self).config == old(self).config,
            r is Ok <==> old(self).names().contains(name@),
            r is Ok ==> registry_remove(old(self).buildables@, name@) == Some(
                final(self).buildables@,
            ),
            r matches Err(e) ==> (e matches DevError::BuildableNotFound(n) && n@ == name@
                && final(self).buildables@ == old(self).buildables@),
    {
        match self.position(name) {
            Some(i) => {
                proof {
                    lemma_first_index_is(self.names(), name@, i as int);
                }
                self.buildables.remove(i);
                Ok(())
            },
            None => Err(DevError::BuildableNotFound(text_of(name))),
        }
    }
}

/// Law: removing a buildable right after adding it gives back the registry
/// as it was.
pub proof fn law_remove_undoes_add(bs: Seq<Buildable>, b: Buildable)
    requires
        registry_add(bs, b) is Some,
    ensures
        registry_remove(registry_add(bs, b)->0, b.name@) == Some(bs),
{
    let bs2 = bs.push(b);
    assert(names_of(bs2) =~= names_of(bs).push(b.name@));
    lemma_first_index_push_new(names_of(bs), b.name@);
    assert(names_of(bs2).contains(b.name@)) by {
        assert(names_of(bs2)[bs.len() as int] == b.name@);
    }
    assert(bs2.remove(bs.len() as int) =~= bs);
}

/// Law: removing a buildable deletes exactly the first buildable of that
/// name and keeps every other one, in order.
pub proof fn law_remove_keeps_the_others_in_order(bs: Seq<Buildable>, name: Seq<char>)
    ensures
        registry_remove(bs, name) is Some <==> names_of(bs).contains(name),
        registry_remove(bs, name) matches Some(r) ==> exists|k: int|
            first_at(names_of(bs), name, k) && r.len() == bs.len() - 1 && (forall|i: int|
                0 <= i < k ==> #[trigger] r[i] == bs[i]) && (forall|i: int|
                k <= i < r.len() ==> #[trigger] r[i] == bs[i + 1]),
{
    if names_of(bs).contains(name) {
        lemma_first_index(names_of(bs), name);
        let k = first_index(names_of(bs), name);
        let r = bs.remove(k);
        assert(first_at(names_of(bs), name, k));
        assert(forall|i: int| 0 <= i < k ==> #[trigger] r[i] == bs[i]);
        assert(forall|i: int| k <= i < r.len() ==> #[trigger] r[i] == bs[i + 1]);
    }
}

/// Law: the names of the registry stay pairwise distinct when a buildable is
/// added.
pub proof fn law_add_keeps_names_distinct(bs: Seq<Buildable>, b: Buildable)
    requires
        all_distinct(names_of(bs)),
        registry_add(bs, b) is Some,
    ensures
        all_distinct(names_of(registry_add(bs, b)->0)),
{
    let bs2 = bs.push(b);
    assert(names_of(bs2) =~= names_of(bs).push(b.name@));
    assert forall|i: int, j: int|
        0 <= i < names_of(bs2).len() && 0 <= j < names_of(bs2).len() && i != j implies names_of(
        bs2,
    )[i] != names_of(bs2)[j] by {
        if i == bs.len() {
            assert(names_of(bs)[j] == names_of(bs2)[j]);
        } else if j == bs.len() {
            assert(names_of(bs)[i] == names_of(bs2)[i]);
        }
    }
}

/// Law: the names of the registry stay pairwise distinct when a buildable is
/// removed.
pub proof fn law_remove_keeps_names_distinct(bs: Seq<Buildable>, name: Seq<char>)
    requires
        all_distinct(names_of(bs)),
        registry_remove(bs, name) is Some,
    ensures
        all_distinct(names_of(registry_remove(bs, name)->0)),
{
    lemma_first_index(names_of(bs), name);
    let k = first_index(names_of(bs), name);
    let bs2 = bs.remove(k);
    assert(names_of(bs2) =~= names_of(bs).remove(k));
    assert forall|i: int, j: int|
        0 <= i < names_of(bs2).len() && 0 <= j < names_of(bs2).len() && i != j implies names_of(
        bs2,
    )[i] != names_of(bs2)[j] by {
        let i0 = if i < k {
            i
        } else {
            i + 1
        };
        let j0 = if j < k {
            j
        } else {
            j + 1
        };
        assert(names_of(bs2)[i] == names_of(bs)[i0]);
        assert(names_of(bs2)[j] == names_of(bs)[j0]);
    }
}

/// Law: once a buildable is added, looking its name up finds it.
pub proof fn law_find_after_add(bs: Seq<Buildable>, b: Buildable)
    requires
        registry_add(bs, b) is Some,
    ensures
        names_of(registry_add(bs, b)->0).contains(b.name@),
        (registry_add(bs, b)->0)[first_index(names_of(registry_add(bs, b)->0), b.name@)] == b,
{
    let bs2 = bs.push(b);
    assert(names_of(bs2) =~= names_of(bs).push(b.name@));
    lemma_first_index_push_new(names_of(bs), b.name@);
    assert(names_of(bs2)[bs.len() as int] == b.name@);
}

} // verus!
