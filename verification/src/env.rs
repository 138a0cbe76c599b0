//! The snapshot: the environment variables that the program reads, the
//! working directory and the resolved pager, captured once so that the rest
//! of the program sees one consistent state and never asks the process
//! again.

use std::path::PathBuf;
use vstd::prelude::*;
use crate::environment::Environment;
use crate::pager::{is_usable_pager, resolve_pager};

verus! {

/// The variable that holds the terminal's hint on the colours it can show.
pub const COLORTERM: &'static str = "COLORTERM";

/// The variable that overrides the display theme.
pub const BAT_THEME: &'static str = "BAT_THEME";

/// The variable through which the invoking git passes its configuration.
pub const GIT_CONFIG_PARAMETERS: &'static str = "GIT_CONFIG_PARAMETERS";

/// The variable through which git passes the subdirectory it was called in.
pub const GIT_PREFIX: &'static str = "GIT_PREFIX";

/// The variable that lists the features to switch on.
pub const DELTA_FEATURES: &'static str = "DELTA_FEATURES";

/// The variable that switches navigation on.
pub const DELTA_NAVIGATE: &'static str = "DELTA_NAVIGATE";

/// The variable that overrides how far apart two lines may be and still be
/// paired naively.
pub const DELTA_EXPERIMENTAL_MAX_LINE_DISTANCE_FOR_NAIVELY_PAIRED_LINES: &'static str =
    "DELTA_EXPERIMENTAL_MAX_LINE_DISTANCE_FOR_NAIVELY_PAIRED_LINES";

/// The variable that overrides the pager.
pub const DELTA_PAGER: &'static str = "DELTA_PAGER";

/// What a snapshot holds, with each string as its characters: the model
/// that the contracts speak of.
pub struct Snapshot {
    pub bat_theme: Option<Seq<char>>,
    pub colorterm: Option<Seq<char>>,
    pub current_dir: Option<PathBuf>,
    pub max_line_distance_for_naively_paired_lines: Option<Seq<char>>,
    pub features: Option<Seq<char>>,
    pub git_config_parameters: Option<Seq<char>>,
    pub git_prefix: Option<Seq<char>>,
    pub navigate: Option<Seq<char>>,
    pub pager_override: Option<Seq<char>>,
    pub resolved_pager: Option<Seq<char>>,
}

/// The snapshot of the environment `vars` with the working directory
/// `current_dir` and the resolved pager `pager`.
///
/// Each field but the last is the value of one variable, unparsed, and is
/// absent exactly where that variable is not set.
pub open spec fn snapshot_of(
    vars: Map<Seq<char>, Seq<char>>,
    current_dir: Option<PathBuf>,
    pager: Seq<char>,
) -> Snapshot {
    Snapshot {
        bat_theme: vars.get(BAT_THEME@),
        colorterm: vars.get(COLORTERM@),
        current_dir,
        max_line_distance_for_naively_paired_lines: vars.get(
            DELTA_EXPERIMENTAL_MAX_LINE_DISTANCE_FOR_NAIVELY_PAIRED_LINES@,
        ),
        features: vars.get(DELTA_FEATURES@),
        git_config_parameters: vars.get(GIT_CONFIG_PARAMETERS@),
        git_prefix: vars.get(GIT_PREFIX@),
        navigate: vars.get(DELTA_NAVIGATE@),
        pager_override: vars.get(DELTA_PAGER@),
        resolved_pager: Some(pager),
    }
}

/// The names of the variables that a snapshot draws on. The set is fixed:
/// no other variable of the environment is ever looked at.
pub open spec fn variable_names() -> Seq<Seq<char>> {
    seq![
        BAT_THEME@,
        COLORTERM@,
        DELTA_EXPERIMENTAL_MAX_LINE_DISTANCE_FOR_NAIVELY_PAIRED_LINES@,
        DELTA_FEATURES@,
        GIT_CONFIG_PARAMETERS@,
        GIT_PREFIX@,
        DELTA_NAVIGATE@,
        DELTA_PAGER@,
    ]
}

/// The names of the variables that a snapshot draws on, for whoever fills
/// the record that is captured.
pub fn variables() -> (names: Vec<&'static str>)
    ensures
        names.deep_view() == variable_names(),
{
    let names = vec![
        BAT_THEME,
        COLORTERM,
        DELTA_EXPERIMENTAL_MAX_LINE_DISTANCE_FOR_NAIVELY_PAIRED_LINES,
        DELTA_FEATURES,
        GIT_CONFIG_PARAMETERS,
        GIT_PREFIX,
        DELTA_NAVIGATE,
        DELTA_PAGER,
    ];
    assert(names.deep_view() =~= variable_names());
    names
}

/// No two of the named variables share a name, so each one feeds a field of
/// its own.
pub proof fn lemma_variable_names_are_distinct()
    ensures
        variable_names().no_duplicates(),
{
    reveal_strlit("BAT_THEME");
    reveal_strlit("COLORTERM");
    reveal_strlit("DELTA_EXPERIMENTAL_MAX_LINE_DISTANCE_FOR_NAIVELY_PAIRED_LINES");
    reveal_strlit("DELTA_FEATURES");
    reveal_strlit("GIT_CONFIG_PARAMETERS");
    reveal_strlit("GIT_PREFIX");
    reveal_strlit("DELTA_NAVIGATE");
    reveal_strlit("DELTA_PAGER");
    let names = variable_names();
    assert(names[0].len() == 9 && names[0][0] == 'B');
    assert(names[1].len() == 9 && names[1][0] == 'C');
    assert(names[2].len() == 61);
    assert(names[3].len() == 14 && names[3][6] == 'F');
    assert(names[4].len() == 21);
    assert(names[5].len() == 10);
    assert(names[6].len() == 14 && names[6][6] == 'N');
    assert(names[7].len() == 11);
}

/// Setting a variable to `value`, the empty string included, makes the field
/// drawn from that variable hold `value`.
pub proof fn lemma_set_variable_is_captured(
    vars: Map<Seq<char>, Seq<char>>,
    value: Seq<char>,
    current_dir: Option<PathBuf>,
    pager: Seq<char>,
)
    ensures
        snapshot_of(vars.insert(BAT_THEME@, value), current_dir, pager).bat_theme == Some(value),
        snapshot_of(vars.insert(COLORTERM@, value), current_dir, pager).colorterm == Some(value),
        snapshot_of(
            vars.insert(DELTA_EXPERIMENTAL_MAX_LINE_DISTANCE_FOR_NAIVELY_PAIRED_LINES@, value),
            current_dir,
            pager,
        ).max_line_distance_for_naively_paired_lines == Some(value),
        snapshot_of(vars.insert(DELTA_FEATURES@, value), current_dir, pager).features == Some(
            value,
        ),
        snapshot_of(
            vars.insert(GIT_CONFIG_PARAMETERS@, value),
            current_dir,
            pager,
        ).git_config_parameters == Some(value),
        snapshot_of(vars.insert(GIT_PREFIX@, value), current_dir, pager).git_prefix == Some(value),
        snapshot_of(vars.insert(DELTA_NAVIGATE@, value), current_dir, pager).navigate == Some(
            value,
        ),
        snapshot_of(vars.insert(DELTA_PAGER@, value), current_dir, pager).pager_override == Some(
            value,
        ),
{
}

/// A field drawn from a variable is absent exactly where that variable is
/// not set: a variable set to the empty string gives an empty string, and no
/// default ever stands in. The resolved pager alone is never absent.
pub proof fn lemma_field_is_absent_iff_variable_is_unset(
    vars: Map<Seq<char>, Seq<char>>,
    current_dir: Option<PathBuf>,
    pager: Seq<char>,
)
    ensures
        ({
            let snapshot = snapshot_of(vars, current_dir, pager);
            &&& snapshot.bat_theme is None <==> !vars.contains_key(BAT_THEME@)
            &&& snapshot.colorterm is None <==> !vars.contains_key(COLORTERM@)
            &&& snapshot.max_line_distance_for_naively_paired_lines is None <==> !vars.contains_key(
                DELTA_EXPERIMENTAL_MAX_LINE_DISTANCE_FOR_NAIVELY_PAIRED_LINES@,
            )
            &&& snapshot.features is None <==> !vars.contains_key(DELTA_FEATURES@)
            &&& snapshot.git_config_parameters is None <==> !vars.contains_key(
                GIT_CONFIG_PARAMETERS@,
            )
            &&& snapshot.git_prefix is None <==> !vars.contains_key(GIT_PREFIX@)
            &&& snapshot.navigate is None <==> !vars.contains_key(DELTA_NAVIGATE@)
            &&& snapshot.pager_override is None <==> !vars.contains_key(DELTA_PAGER@)
            &&& snapshot.resolved_pager is Some
        }),
{
}

/// Two environments that agree on the named variables have the same
/// snapshot, whatever else is set in either.
pub proof fn lemma_only_named_variables_count(
    a: Map<Seq<char>, Seq<char>>,
    b: Map<Seq<char>, Seq<char>>,
    current_dir: Option<PathBuf>,
    pager: Seq<char>,
)
    requires
        forall|name: Seq<char>| variable_names().contains(name) ==> a.get(name) == b.get(name),
    ensures
        snapshot_of(a, current_dir, pager) == snapshot_of(b, current_dir, pager),
{
    let names = variable_names();
    assert(forall|i: int| 0 <= i < 8 ==> names.contains(#[trigger] names[i]));
    assert(names[0] == BAT_THEME@);
    assert(names[1] == COLORTERM@);
    assert(names[2] == DELTA_EXPERIMENTAL_MAX_LINE_DISTANCE_FOR_NAIVELY_PAIRED_LINES@);
    assert(names[3] == DELTA_FEATURES@);
    assert(names[4] == GIT_CONFIG_PARAMETERS@);
    assert(names[5] == GIT_PREFIX@);
    assert(names[6] == DELTA_NAVIGATE@);
    assert(names[7] == DELTA_PAGER@);
}

/// The environment as the program sees it. Built once, read ever after.
///
/// Every value is kept as it was found, unparsed. A field is absent where
/// there was nothing to find.
pub struct DeltaEnv {
    /// The display theme, from `BAT_THEME`.
    pub bat_theme: Option<String>,
    /// The terminal's colour hint, from `COLORTERM`.
    pub colorterm: Option<String>,
    /// The working directory at the time of the capture.
    pub current_dir: Option<PathBuf>,
    /// From `DELTA_EXPERIMENTAL_MAX_LINE_DISTANCE_FOR_NAIVELY_PAIRED_LINES`.
    pub experimental_max_line_distance_for_naively_paired_lines: Option<String>,
    /// The feature list, from `DELTA_FEATURES`.
    pub features: Option<String>,
    /// Git's configuration parameters, from `GIT_CONFIG_PARAMETERS`.
    pub git_config_parameters: Option<String>,
    /// Git's subdirectory prefix, from `GIT_PREFIX`.
    pub git_prefix: Option<String>,
    /// The navigation flag, from `DELTA_NAVIGATE`.
    pub navigate: Option<String>,
    /// First the pager override, the raw value of `DELTA_PAGER`; then the
    /// resolved pager. The second is not derived from the first.
    pub pagers: (Option<String>, Option<String>),
}

impl View for DeltaEnv {
    type V = Snapshot;

    open spec fn view(&self) -> Snapshot {
        Snapshot {
            bat_theme: self.bat_theme.deep_view(),
            colorterm: self.colorterm.deep_view(),
            current_dir: self.current_dir,
            max_line_distance_for_naively_paired_lines:
                self.experimental_max_line_distance_for_naively_paired_lines.deep_view(),
            features: self.features.deep_view(),
            git_config_parameters: self.git_config_parameters.deep_view(),
            git_prefix: self.git_prefix.deep_view(),
            navigate: self.navigate.deep_view(),
            pager_override: self.pagers.0.deep_view(),
            resolved_pager: self.pagers.1.deep_view(),
        }
    }
}

impl Clone for DeltaEnv {
    /// A copy that holds what this snapshot holds, field for field.
    fn clone(&self) -> (copy: Self)
        ensures
            copy@ == self@,
    {
        DeltaEnv {
            bat_theme: self.bat_theme.clone(),
            colorterm: self.colorterm.clone(),
            current_dir: self.current_dir.clone(),
            experimental_max_line_distance_for_naively_paired_lines:
                self.experimental_max_line_distance_for_naively_paired_lines.clone(),
            features: self.features.clone(),
            git_config_parameters: self.git_config_parameters.clone(),
            git_prefix: self.git_prefix.clone(),
            navigate: self.navigate.clone(),
            pagers: (self.pagers.0.clone(), self.pagers.1.clone()),
        }
    }
}

impl Default for DeltaEnv {
    /// The snapshot in which every field is absent.
    fn default() -> (snapshot: Self)
        ensures
            snapshot@ == (Snapshot {
                bat_theme: None,
                colorterm: None,
                current_dir: None,
                max_line_distance_for_naively_paired_lines: None,
                features: None,
                git_config_parameters: None,
                git_prefix: None,
                navigate: None,
                pager_override: None,
                resolved_pager: None,
            }),
    {
        DeltaEnv {
            bat_theme: None,
            colorterm: None,
            current_dir: None,
            experimental_max_line_distance_for_naively_paired_lines: None,
            features: None,
            git_config_parameters: None,
            git_prefix: None,
            navigate: None,
            pagers: (None, None),
        }
    }
}

impl DeltaEnv {
    /// Whether this snapshot is a capture of the environment `vars` with the
    /// working directory `current_dir`: every field drawn from a variable
    /// holds that variable's value, and the resolved pager is a usable one.
    pub open spec fn captures(
        &self,
        vars: Map<Seq<char>, Seq<char>>,
        current_dir: Option<PathBuf>,
    ) -> bool {
        &&& self@.resolved_pager matches Some(pager)
        &&& is_usable_pager(pager)
        &&& self@ == snapshot_of(vars, current_dir, pager)
    }

    /// Builds the snapshot of `env` around a pager that was resolved
    /// already.
    ///
    /// `current_dir` is the outcome of asking for the working directory. A
    /// failed query is no failure here: the field is then absent.
    pub fn with_pager<E>(
        env: &Environment,
        current_dir: Result<PathBuf, E>,
        pager: String,
    ) -> (snapshot: Self)
        ensures
            snapshot@ == snapshot_of(env@, current_dir.ok(), pager@),
            current_dir matches Ok(dir) ==> snapshot.current_dir == Some(dir),
            current_dir is Err ==> snapshot.current_dir is None,
    {
        let current_dir = match current_dir {
            Ok(dir) => Some(dir),
            Err(_) => None,
        };
        DeltaEnv {
            bat_theme: env.get(BAT_THEME),
            colorterm: env.get(COLORTERM),
            current_dir,
            experimental_max_line_distance_for_naively_paired_lines: env.get(
                DELTA_EXPERIMENTAL_MAX_LINE_DISTANCE_FOR_NAIVELY_PAIRED_LINES,
            ),
            features: env.get(DELTA_FEATURES),
            git_config_parameters: env.get(GIT_CONFIG_PARAMETERS),
            git_prefix: env.get(GIT_PREFIX),
            navigate: env.get(DELTA_NAVIGATE),
            pagers: (env.get(DELTA_PAGER), Some(pager)),
        }
    }

    /// Two captures of one environment hold the same in every field drawn
    /// from it, and are equal field for field where the same pager was
    /// resolved for both.
    pub proof fn lemma_captures_agree(
        self,
        other: Self,
        vars: Map<Seq<char>, Seq<char>>,
        current_dir: Option<PathBuf>,
    )
        requires
            self.captures(vars, current_dir),
            other.captures(vars, current_dir),
        ensures
            self@ == (Snapshot { resolved_pager: self@.resolved_pager, ..other@ }),
            self@.resolved_pager == other@.resolved_pager ==> self@ == other@,
    {
    }

    /// Captures `env`, and resolves the pager from the process environment.
    ///
    /// This never fails. Which pager is resolved depends on the process, so
    /// all that is known of it is that it is usable.
    pub fn init<E>(env: &Environment, current_dir: Result<PathBuf, E>) -> (snapshot: Self)
        ensures
            snapshot.captures(env@, current_dir.ok()),
            current_dir matches Ok(dir) ==> snapshot.current_dir == Some(dir),
            current_dir is Err ==> snapshot.current_dir is None,
    {
        let pager = resolve_pager(None);
        Self::with_pager(env, current_dir, pager)
    }
}

} // verus!
