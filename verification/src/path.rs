//! Path finder and metadata configuration.
//!
//! Paths are handled as plain strings; path components are joined with a
//! `/` separator.

use vstd::prelude::*;

verus! {

use crate::error::{ConrigError, FileSystemError};
use crate::parser::{
    bases_probes,
    entry_paths,
    ConfigFile,
    find_first_hit,
    lemma_seq_views_push,
    seq_views,
    spec_bases_probes,
    spec_first_hit,
    FileFormat,
    FileSnapshot,
    RawConfigFile,
    WriteRequest,
};

/// An application's metadata.
///
/// This is mainly used to figure out the system-level storage directory
/// for the application, via the `directories` crate.
#[derive(Debug, Clone)]
pub struct ProjectPath {
    /// The qualifier of the application.
    ///
    /// E.g. `com` in `com.GitHub.application`.
    pub qualifier: String,
    /// The organization name of the application.
    ///
    /// E.g. `GitHub` in `com.GitHub.application`.
    pub organization: String,
    /// The application's name.
    ///
    /// E.g. `application` in `com.GitHub.application`.
    pub application: String,
}

impl ProjectPath {
    /// Create a new `ProjectPath`.
    pub fn new(qualifier: String, organization: String, application: String) -> (r: ProjectPath)
        ensures
            r.qualifier == qualifier,
            r.organization == organization,
            r.application == application,
    {
        ProjectPath { qualifier, organization, application }
    }

    /// Replace the `qualifier` field.
    pub fn with_qualifier(self, qualifier: String) -> (r: ProjectPath)
        ensures
            r.qualifier == qualifier,
            r.organization == self.organization,
            r.application == self.application,
    {
        ProjectPath { qualifier, ..self }
    }

    /// Replace the `organization` field.
    pub fn with_organization(self, organization: String) -> (r: ProjectPath)
        ensures
            r.qualifier == self.qualifier,
            r.organization == organization,
            r.application == self.application,
    {
        ProjectPath { organization, ..self }
    }

    /// Replace the `application` field.
    pub fn with_application(self, application: String) -> (r: ProjectPath)
        ensures
            r.qualifier == self.qualifier,
            r.organization == self.organization,
            r.application == application,
    {
        ProjectPath { application, ..self }
    }

    /// Get the configuration directory of the application.
    ///
    /// Relies on `directories::ProjectDirs::from` and `config_dir`: the
    /// platform's convention decides the directory, and `None` is returned
    /// when the platform offers no usable root.
    #[verifier::external_body]
    pub fn sys_config_dir(&self) -> Option<String> {
        match directories::ProjectDirs::from(
            self.qualifier.as_str(),
            self.organization.as_str(),
            self.application.as_str(),
        ) {
            Some(d) => Some(d.config_dir().to_string_lossy().into_owned()),
            None => None,
        }
    }

    /// Get the preference directory of the application.
    ///
    /// Relies on `directories::ProjectDirs::from` and `preference_dir`:
    /// the platform's convention decides the directory, and `None` is
    /// returned when the platform offers no usable root.
    #[verifier::external_body]
    pub fn sys_preference_dir(&self) -> Option<String> {
        match directories::ProjectDirs::from(
            self.qualifier.as_str(),
            self.organization.as_str(),
            self.application.as_str(),
        ) {
            Some(d) => Some(d.preference_dir().to_string_lossy().into_owned()),
            None => None,
        }
    }

    /// Get the system-level configuration directory of the application,
    /// depending on `cfg_sys_type`:
    /// - [`ConfigType::Preference`]: the preference directory;
    /// - [`ConfigType::Config`]: the configuration directory.
    pub fn sys_dir(&self, cfg_sys_type: ConfigType) -> Option<String> {
        match cfg_sys_type {
            ConfigType::Preference => self.sys_preference_dir(),
            ConfigType::Config => self.sys_config_dir(),
        }
    }
}

/// The directory used to store configuration files at system level.
#[derive(Debug, Clone, Copy, PartialEq, Eq, Structural)]
#[non_exhaustive]
pub enum ConfigType {
    /// Save the files in the platform's preference directory.
    Preference,
    /// Save the files in the platform's configuration directory.
    Config,
}

/// Extra options for the configuration file searcher.
#[derive(Debug, Clone, Copy, PartialEq, Eq, Structural)]
pub struct ConfigOption {
    /// Allow configuration files to be prefixed with a dot.
    /// Default: `true`.
    ///
    /// If `allow_dot_prefix` is `true`, both `.<app-name>.toml` and
    /// `<app-name>.toml` will be viewed as config files.
    pub allow_dot_prefix: bool,
    /// Allows system-level configuration files to override the local
    /// version. Default: `false`.
    pub sys_override_local: bool,
    /// The directory used to store configuration files at system level.
    pub config_sys_type: ConfigType,
}

impl ConfigOption {
    /// Replace the `allow_dot_prefix` field.
    pub fn with_allow_dot_prefix(self, allow_dot_prefix: bool) -> (r: ConfigOption)
        ensures
            r == (ConfigOption { allow_dot_prefix, ..self }),
    {
        ConfigOption { allow_dot_prefix, ..self }
    }

    /// Replace the `sys_override_local` field.
    pub fn with_sys_override_local(self, sys_override_local: bool) -> (r: ConfigOption)
        ensures
            r == (ConfigOption { sys_override_local, ..self }),
    {
        ConfigOption { sys_override_local, ..self }
    }

    /// Replace the `config_sys_type` field.
    pub fn with_config_sys_type(self, config_sys_type: ConfigType) -> (r: ConfigOption)
        ensures
            r == (ConfigOption { config_sys_type, ..self }),
    {
        ConfigOption { config_sys_type, ..self }
    }
}

impl Default for ConfigOption {
    /// The default searcher options: dot-prefixed files allowed, local
    /// configuration first, system files in the configuration directory.
    fn default() -> (r: ConfigOption)
        ensures
            r.allow_dot_prefix == true,
            r.sys_override_local == false,
            r.config_sys_type == ConfigType::Config,
    {
        ConfigOption {
            allow_dot_prefix: true,
            sys_override_local: false,
            config_sys_type: ConfigType::Config,
        }
    }
}

/// `root` and `name` joined with a `/` separator.
pub open spec fn spec_join(root: Seq<char>, name: Seq<char>) -> Seq<char> {
    root + "/"@ + name
}

/// Joins a directory and a file name with a `/` separator.
pub fn join(root: &str, name: &str) -> (r: String)
    ensures
        r@ == spec_join(root@, name@),
{
    String::from_str(root).concat("/").concat(name)
}

/// Clones a vector of strings, element by element.
fn clone_string_vec(v: &Vec<String>) -> (r: Vec<String>)
    ensures
        r@ == v@,
{
    let mut out: Vec<String> = Vec::new();
    let mut i: usize = 0;
    while i < v.len()
        invariant
            0 <= i <= v@.len(),
            out@ =~= v@.take(i as int),
        decreases v@.len() - i,
    {
        out.push(v[i].clone());
        assert(out@ =~= v@.take(i + 1));
        i = i + 1;
    }
    assert(v@.take(v@.len() as int) =~= v@);
    out
}

/// Appends a clone of every string in `items` to `out`.
fn push_cloned(out: &mut Vec<String>, items: &Vec<String>)
    ensures
        seq_views(final(out)@) == seq_views(old(out)@) + seq_views(items@),
{
    let mut i: usize = 0;
    while i < items.len()
        invariant
            0 <= i <= items@.len(),
            seq_views(out@) =~= seq_views(old(out)@) + seq_views(items@).take(i as int),
        decreases items@.len() - i,
    {
        let ghost prev = out@;
        out.push(items[i].clone());
        proof {
            lemma_seq_views_push(prev, items@[i as int]);
            assert(seq_views(items@).take(i + 1) =~= seq_views(items@).take(i as int).push(
                items@[i as int]@,
            ));
            assert(seq_views(out@) =~= seq_views(old(out)@) + seq_views(items@).take(i + 1));
        }
        i = i + 1;
    }
    assert(seq_views(items@).take(items@.len() as int) =~= seq_views(items@));
}

/// Appends the file-stem bases of every candidate name under `root`:
/// for each name in order, `root/name`, then — when `with_dot` —
/// `root/.name`.
fn push_expanded_names(out: &mut Vec<String>, root: &str, names: &Vec<String>, with_dot: bool)
    ensures
        seq_views(final(out)@) == seq_views(old(out)@) + ConfigPathMetadata::spec_root_bases(
            root@,
            names@,
            with_dot,
        ),
{
    let mut i: usize = 0;
    assert(names@.take(0) =~= Seq::<String>::empty());
    while i < names.len()
        invariant
            0 <= i <= names@.len(),
            seq_views(out@) =~= seq_views(old(out)@) + ConfigPathMetadata::spec_root_bases(
                root@,
                names@.take(i as int),
                with_dot,
            ),
        decreases names@.len() - i,
    {
        let ghost prev = out@;
        out.push(join(root, names[i].as_str()));
        proof {
            lemma_seq_views_push(prev, out@[prev.len() as int]);
        }
        if with_dot {
            let ghost mid = out@;
            let dotted = String::from_str(".").concat(names[i].as_str());
            out.push(join(root, dotted.as_str()));
            proof {
                lemma_seq_views_push(mid, out@[mid.len() as int]);
            }
        }
        proof {
            assert(seq_views(out@) =~= seq_views(prev) + ConfigPathMetadata::spec_expand_name(
                root@,
                names@[i as int]@,
                with_dot,
            ));
            ConfigPathMetadata::lemma_root_bases_push(
                root@,
                names@.take(i as int),
                names@[i as int],
                with_dot,
            );
            assert(names@.take(i as int).push(names@[i as int]) =~= names@.take(i + 1));
            assert(seq_views(out@) =~= seq_views(old(out)@) + ConfigPathMetadata::spec_root_bases(
                root@,
                names@.take(i + 1),
                with_dot,
            ));
        }
        i = i + 1;
    }
    assert(names@.take(names@.len() as int) =~= names@);
}

/// Appends the file-stem bases of every candidate name under every folder.
fn push_folder_bases(out: &mut Vec<String>, folders: &Vec<String>, names: &Vec<String>, with_dot: bool)
    ensures
        seq_views(final(out)@) == seq_views(old(out)@) + ConfigPathMetadata::spec_folders_bases(
            folders@,
            names@,
            with_dot,
        ),
{
    let mut i: usize = 0;
    assert(folders@.take(0) =~= Seq::<String>::empty());
    while i < folders.len()
        invariant
            0 <= i <= folders@.len(),
            seq_views(out@) =~= seq_views(old(out)@) + ConfigPathMetadata::spec_folders_bases(
                folders@.take(i as int),
                names@,
                with_dot,
            ),
        decreases folders@.len() - i,
    {
        push_expanded_names(out, folders[i].as_str(), names, with_dot);
        proof {
            ConfigPathMetadata::lemma_folders_bases_push(
                folders@.take(i as int),
                names@,
                folders@[i as int],
                with_dot,
            );
            assert(folders@.take(i as int).push(folders@[i as int]) =~= folders@.take(i + 1));
        }
        i = i + 1;
    }
    assert(folders@.take(folders@.len() as int) =~= folders@);
}

/// The main entry point of `conrig`.
///
/// This defines multiple configuration options for an application: its
/// identity, the names its configuration file may carry, the default
/// serialization language, and extra places to search.
#[derive(Debug, Clone)]
pub struct ConfigPathMetadata {
    /// The application's project path, used for the system-level root.
    pub project_path: ProjectPath,
    /// The configuration files' names.
    ///
    /// At least one should be specified.
    pub config_name: Vec<String>,
    /// The default language of the configuration files.
    pub default_format: FileFormat,
    /// Extra folders to find & save config files in; each is searched by
    /// name expansion, exactly like a root directory.
    pub extra_folders: Vec<String>,
    /// Extra config file paths.
    ///
    /// Just set the filename and `conrig` will automatically detect the
    /// suffix.
    ///
    /// This behaves differently from `config_name`: each entry is probed
    /// directly as a file base path, instead of adding a new possible
    /// config file name under every root.
    pub extra_files: Vec<String>,
    /// Extra configuration options.
    pub config_option: ConfigOption,
}

impl ConfigPathMetadata {
    /// Well-formedness of the descriptor: at least one candidate name.
    pub open spec fn wf(self) -> bool {
        self.config_name@.len() > 0
    }

    /// Create a new `ConfigPathMetadata`.
    pub fn new(
        project_path: ProjectPath,
        config_name: Vec<String>,
        default_format: FileFormat,
        extra_folders: Vec<String>,
        extra_files: Vec<String>,
        config_option: ConfigOption,
    ) -> (r: ConfigPathMetadata)
        requires
            config_name@.len() > 0,
        ensures
            r.project_path == project_path,
            r.config_name == config_name,
            r.default_format == default_format,
            r.extra_folders == extra_folders,
            r.extra_files == extra_files,
            r.config_option == config_option,
            r.wf(),
    {
        ConfigPathMetadata {
            project_path,
            config_name,
            default_format,
            extra_folders,
            extra_files,
            config_option,
        }
    }

    /// Replace the `project_path` field.
    pub fn with_project_path(self, project_path: ProjectPath) -> (r: ConfigPathMetadata)
        ensures
            r == (ConfigPathMetadata { project_path, ..self }),
    {
        ConfigPathMetadata { project_path, ..self }
    }

    /// Replace the `config_name` field.
    pub fn with_config_name(self, config_name: Vec<String>) -> (r: ConfigPathMetadata)
        ensures
            r == (ConfigPathMetadata { config_name, ..self }),
    {
        ConfigPathMetadata { config_name, ..self }
    }

    /// Replace the `default_format` field.
    pub fn with_default_format(self, default_format: FileFormat) -> (r: ConfigPathMetadata)
        ensures
            r == (ConfigPathMetadata { default_format, ..self }),
    {
        ConfigPathMetadata { default_format, ..self }
    }

    /// Set the `default_format` field to
    /// [`FileFormat::DEFAULT_FILE_FORMAT`].
    pub fn no_default_format(self) -> (r: ConfigPathMetadata)
        ensures
            r == (ConfigPathMetadata { default_format: FileFormat::Toml, ..self }),
    {
        ConfigPathMetadata { default_format: FileFormat::DEFAULT_FILE_FORMAT, ..self }
    }

    /// Replace the `extra_folders` field.
    pub fn with_extra_folders(self, extra_folders: Vec<String>) -> (r: ConfigPathMetadata)
        ensures
            r == (ConfigPathMetadata { extra_folders, ..self }),
    {
        ConfigPathMetadata { extra_folders, ..self }
    }

    /// Replace the `extra_files` field.
    pub fn with_extra_files(self, extra_files: Vec<String>) -> (r: ConfigPathMetadata)
        ensures
            r == (ConfigPathMetadata { extra_files, ..self }),
    {
        ConfigPathMetadata { extra_files, ..self }
    }

    /// Replace the `config_option` field.
    pub fn with_config_option(self, config_option: ConfigOption) -> (r: ConfigPathMetadata)
        ensures
            r == (ConfigPathMetadata { config_option, ..self }),
    {
        ConfigPathMetadata { config_option, ..self }
    }

    /// The file-stem bases one candidate name contributes under a root:
    /// the plain `root/name`, followed — when dot-prefixed files are
    /// allowed — by the hidden `root/.name`.
    pub open spec fn spec_expand_name(root: Seq<char>, name: Seq<char>, with_dot: bool) -> Seq<
        Seq<char>,
    > {
        if with_dot {
            seq![spec_join(root, name), spec_join(root, "."@ + name)]
        } else {
            seq![spec_join(root, name)]
        }
    }

    /// The file-stem bases of every candidate name under one root, in
    /// name order, the non-dotted form always before the dotted form.
    pub open spec fn spec_root_bases(
        root: Seq<char>,
        names: Seq<String>,
        with_dot: bool,
    ) -> Seq<Seq<char>>
        decreases names.len(),
    {
        if names.len() == 0 {
            Seq::empty()
        } else {
            Self::spec_expand_name(root, names[0]@, with_dot) + Self::spec_root_bases(
                root,
                names.drop_first(),
                with_dot,
            )
        }
    }

    /// Appending one name appends its expansion.
    pub proof fn lemma_root_bases_push(
        root: Seq<char>,
        names: Seq<String>,
        x: String,
        with_dot: bool,
    )
        ensures
            Self::spec_root_bases(root, names.push(x), with_dot) == Self::spec_root_bases(
                root,
                names,
                with_dot,
            ) + Self::spec_expand_name(root, x@, with_dot),
        decreases names.len(),
    {
        if names.len() == 0 {
            assert(names.push(x)[0] == x);
            assert(names.push(x).drop_first() =~= names);
            assert(Self::spec_root_bases(root, names.push(x), with_dot)
                =~= Self::spec_root_bases(root, names, with_dot) + Self::spec_expand_name(
                root,
                x@,
                with_dot,
            ));
        } else {
            Self::lemma_root_bases_push(root, names.drop_first(), x, with_dot);
            assert(names.push(x).drop_first() =~= names.drop_first().push(x));
            assert(names.push(x)[0] == names[0]);
            assert(Self::spec_root_bases(root, names.push(x), with_dot)
                =~= Self::spec_root_bases(root, names, with_dot) + Self::spec_expand_name(
                root,
                x@,
                with_dot,
            ));
        }
    }

    /// The file-stem bases of every candidate name under every folder, in
    /// folder order.
    pub open spec fn spec_folders_bases(
        folders: Seq<String>,
        names: Seq<String>,
        with_dot: bool,
    ) -> Seq<Seq<char>>
        decreases folders.len(),
    {
        if folders.len() == 0 {
            Seq::empty()
        } else {
            Self::spec_root_bases(folders[0]@, names, with_dot) + Self::spec_folders_bases(
                folders.drop_first(),
                names,
                with_dot,
            )
        }
    }

    /// Appending one folder appends its bases.
    pub proof fn lemma_folders_bases_push(
        folders: Seq<String>,
        names: Seq<String>,
        x: String,
        with_dot: bool,
    )
        ensures
            Self::spec_folders_bases(folders.push(x), names, with_dot)
                == Self::spec_folders_bases(folders, names, with_dot) + Self::spec_root_bases(
                x@,
                names,
                with_dot,
            ),
        decreases folders.len(),
    {
        if folders.len() == 0 {
            assert(folders.push(x)[0] == x);
            assert(folders.push(x).drop_first() =~= folders);
            assert(Self::spec_folders_bases(folders.push(x), names, with_dot)
                =~= Self::spec_folders_bases(folders, names, with_dot) + Self::spec_root_bases(
                x@,
                names,
                with_dot,
            ));
        } else {
            Self::lemma_folders_bases_push(folders.drop_first(), names, x, with_dot);
            assert(folders.push(x).drop_first() =~= folders.drop_first().push(x));
            assert(folders.push(x)[0] == folders[0]);
            assert(Self::spec_folders_bases(folders.push(x), names, with_dot)
                =~= Self::spec_folders_bases(folders, names, with_dot) + Self::spec_root_bases(
                x@,
                names,
                with_dot,
            ));
        }
    }

    /// The full search sequence of file-stem bases, concatenating in
    /// order: the extra files (each probed directly), the extra folders
    /// (each name-expanded), and the two roots (name-expanded), ordered
    /// system-before-local exactly when `sys_override_local` is set.
    pub open spec fn spec_search_bases(
        self,
        sys_root: Seq<char>,
        local_root: Seq<char>,
    ) -> Seq<Seq<char>> {
        let with_dot = self.config_option.allow_dot_prefix;
        let names = self.config_name@;
        let sys_bases = Self::spec_root_bases(sys_root, names, with_dot);
        let local_bases = Self::spec_root_bases(local_root, names, with_dot);
        seq_views(self.extra_files@) + Self::spec_folders_bases(
            self.extra_folders@,
            names,
            with_dot,
        ) + (if self.config_option.sys_override_local {
            sys_bases + local_bases
        } else {
            local_bases + sys_bases
        })
    }

    /// The full search sequence of probes: every base's probing priority
    /// list, in base order.
    pub open spec fn spec_search_probes(
        self,
        sys_root: Seq<char>,
        local_root: Seq<char>,
    ) -> Seq<(Seq<char>, FileFormat)> {
        spec_bases_probes(self.spec_search_bases(sys_root, local_root), self.default_format)
    }

    /// What the search returns for the given roots and set of existing
    /// files: the first probe whose path exists, or `None`.
    pub open spec fn spec_search_result(
        self,
        sys_root: Seq<char>,
        local_root: Seq<char>,
        existing: Seq<Seq<char>>,
    ) -> Option<(Seq<char>, FileFormat)> {
        spec_first_hit(self.spec_search_probes(sys_root, local_root), existing)
    }

    /// Holds when `raw` is the handle the search produces for the given
    /// roots and existing paths: the first existing probe's path and
    /// format, or no path and the default format when nothing exists.
    pub open spec fn spec_search_outcome(
        self,
        raw: RawConfigFile,
        sys_root: Seq<char>,
        local_root: Seq<char>,
        existing: Seq<Seq<char>>,
    ) -> bool {
        match self.spec_search_result(sys_root, local_root, existing) {
            Some(pf) => raw.path matches Some(p) && p@ == pf.0 && raw.file_format == pf.1,
            None => raw.path is None && raw.file_format == self.default_format,
        }
    }

    /// Builds the full search sequence of file-stem bases.
    pub fn search_bases(&self, sys_root: &str, local_root: &str) -> (v: Vec<String>)
        ensures
            seq_views(v@) == self.spec_search_bases(sys_root@, local_root@),
    {
        let with_dot = self.config_option.allow_dot_prefix;
        let mut bases: Vec<String> = Vec::new();
        push_cloned(&mut bases, &self.extra_files);
        let ghost after_files = seq_views(bases@);
        push_folder_bases(&mut bases, &self.extra_folders, &self.config_name, with_dot);
        let ghost after_folders = seq_views(bases@);
        if self.config_option.sys_override_local {
            push_expanded_names(&mut bases, sys_root, &self.config_name, with_dot);
            push_expanded_names(&mut bases, local_root, &self.config_name, with_dot);
        } else {
            push_expanded_names(&mut bases, local_root, &self.config_name, with_dot);
            push_expanded_names(&mut bases, sys_root, &self.config_name, with_dot);
        }
        assert(seq_views(bases@) =~= self.spec_search_bases(sys_root@, local_root@));
        bases
    }

    /// Holds when `other` describes the same configuration as `self`: all
    /// fields agree, the string vectors element by element.
    pub open spec fn same_config(self, other: ConfigPathMetadata) -> bool {
        &&& self.project_path == other.project_path
        &&& self.config_name@ == other.config_name@
        &&& self.default_format == other.default_format
        &&& self.extra_folders@ == other.extra_folders@
        &&& self.extra_files@ == other.extra_files@
        &&& self.config_option == other.config_option
    }

    /// An owned copy that describes the same configuration.
    pub fn duplicate(&self) -> (r: ConfigPathMetadata)
        ensures
            r.same_config(*self),
    {
        ConfigPathMetadata {
            project_path: ProjectPath {
                qualifier: self.project_path.qualifier.clone(),
                organization: self.project_path.organization.clone(),
                application: self.project_path.application.clone(),
            },
            config_name: clone_string_vec(&self.config_name),
            default_format: self.default_format,
            extra_folders: clone_string_vec(&self.extra_folders),
            extra_files: clone_string_vec(&self.extra_files),
            config_option: self.config_option,
        }
    }

    /// Search for a configuration file among the caller-observed existing
    /// paths, with the system root supplied explicitly.
    ///
    /// The absence of a system root is a hard failure
    /// ([`FileSystemError::NoProjectDirectory`]), never silently skipped.
    /// Otherwise the result carries the first existing candidate path with
    /// its detected format, or no path at all — with the default format —
    /// when no candidate exists.
    pub fn search_config_file_in(
        &self,
        sys_root: Option<&String>,
        local_root: &str,
        existing: &Vec<String>,
    ) -> (r: Result<RawConfigFile, ConrigError>)
        ensures
            sys_root is None ==> (r matches Err(e) && e == ConrigError::FileSystemError(
                FileSystemError::NoProjectDirectory,
            )),
            sys_root matches Some(sys) ==> (r matches Ok(raw) && raw.config.same_config(*self)
                && self.spec_search_outcome(raw, sys@, local_root@, seq_views(existing@))),
    {
        match sys_root {
            None => Err(ConrigError::FileSystemError(FileSystemError::NoProjectDirectory)),
            Some(sys) => {
                let bases = self.search_bases(sys.as_str(), local_root);
                let probes = bases_probes(&bases, self.default_format);
                let dup = self.duplicate();
                match find_first_hit(&probes, existing) {
                    Some(pf) => Ok(RawConfigFile::new(pf.1, Some(pf.0), dup)),
                    None => Ok(RawConfigFile::new(self.default_format, None, dup)),
                }
            },
        }
    }

    /// Search for a configuration file among the caller-observed existing
    /// paths.
    ///
    /// The system root is asked of the platform; its absence is a hard
    /// failure ([`FileSystemError::NoProjectDirectory`]).  `local_root` is
    /// the caller's current working directory, and `existing` lists the
    /// paths that exist on disk, as this library performs no disk access
    /// itself.
    ///
    /// The search checks, in order: the extra files, the extra folders,
    /// and the system and local roots, in the precedence chosen by
    /// `config_option.sys_override_local`.
    pub fn search_config_file(&self, local_root: &str, existing: &Vec<String>) -> (r: Result<
        RawConfigFile,
        ConrigError,
    >)
        ensures
            r matches Err(e) ==> e == ConrigError::FileSystemError(
                FileSystemError::NoProjectDirectory,
            ),
            r matches Ok(raw) ==> raw.config.same_config(*self) && (exists|sys: Seq<char>|
                self.spec_search_outcome(raw, sys, local_root@, seq_views(existing@))),
    {
        match self.project_path.sys_dir(self.config_option.config_sys_type) {
            Some(sys) => {
                let r = self.search_config_file_in(Some(&sys), local_root, existing);
                proof {
                    if r is Ok {
                        let raw = r->Ok_0;
                        assert(self.spec_search_outcome(
                            raw,
                            sys@,
                            local_root@,
                            seq_views(existing@),
                        ));
                    }
                }
                r
            },
            None => Err(ConrigError::FileSystemError(FileSystemError::NoProjectDirectory)),
        }
    }

    /// The default configuration file under `root`:
    /// `<root>/<first candidate name>.<default-format extension>`.
    pub open spec fn spec_default_file(self, root: Seq<char>) -> Seq<char> {
        spec_join(root, self.config_name@[0]@ + "."@ + self.default_format.spec_extension())
    }

    /// Format the default configuration file under an explicit root
    /// directory.
    pub fn default_file_in(&self, root: &str) -> (r: String)
        requires
            self.wf(),
        ensures
            r@ == self.spec_default_file(root@),
    {
        let name = join(root, self.config_name[0].as_str()).concat(".").concat(
            self.default_format.extension(),
        );
        assert(name@ =~= self.spec_default_file(root@));
        name
    }

    /// Format the default system-level configuration file.
    ///
    /// Fails with [`FileSystemError::NoProjectDirectory`] exactly when the
    /// platform offers no system root for the application.
    pub fn default_sys_config_file(&self) -> (r: Result<String, ConrigError>)
        requires
            self.wf(),
        ensures
            r matches Ok(p) ==> exists|root: Seq<char>| p@ == self.spec_default_file(root),
            r matches Err(e) ==> e == ConrigError::FileSystemError(
                FileSystemError::NoProjectDirectory,
            ),
    {
        match self.project_path.sys_dir(self.config_option.config_sys_type) {
            Some(root) => {
                let p = self.default_file_in(root.as_str());
                assert(p@ == self.spec_default_file(root@));
                Ok(p)
            },
            None => Err(ConrigError::FileSystemError(FileSystemError::NoProjectDirectory)),
        }
    }

    /// Format the default configuration file in the local directory
    /// `local_root`, the caller's current working directory.
    pub fn default_local_config_file(&self, local_root: &str) -> (r: String)
        requires
            self.wf(),
        ensures
            r@ == self.spec_default_file(local_root@),
    {
        self.default_file_in(local_root)
    }

    /// Format the default configuration file, depending on
    /// `config_option.sys_override_local`: the system-level default when
    /// set, the local default otherwise.
    pub fn default_config_file(&self, local_root: &str) -> (r: Result<String, ConrigError>)
        requires
            self.wf(),
        ensures
            !self.config_option.sys_override_local ==> (r matches Ok(p) && p@
                == self.spec_default_file(local_root@)),
            self.config_option.sys_override_local ==> {
                &&& r matches Ok(p) ==> exists|root: Seq<char>| p@ == self.spec_default_file(root)
                &&& r matches Err(e) ==> e == ConrigError::FileSystemError(
                    FileSystemError::NoProjectDirectory,
                )
            },
    {
        if self.config_option.sys_override_local {
            self.default_sys_config_file()
        } else {
            Ok(self.default_local_config_file(local_root))
        }
    }
}

/// Descriptors that describe the same configuration synthesize the same
/// default file under any root.
proof fn lemma_same_config_default_file(a: ConfigPathMetadata, b: ConfigPathMetadata, root: Seq<char>)
    requires
        a.same_config(b),
    ensures
        a.spec_default_file(root) == b.spec_default_file(root),
{
    assert(a.config_name@[0] == b.config_name@[0]);
}

impl ConfigPathMetadata {
    // Shortcut methods: search, fall back to the default path, then run
    // the terminal operation.  Each shortcut's contract fixes its result
    // relative to the system roots the two platform lookups answered —
    // existentially bound, since the platform decides them — through the
    // effective path and format below; the chained pieces
    // (`search_config_file_in`, the `fallback_*` operations and the
    // `ConfigFile` operations) take every outside outcome as an argument
    // and are exact.

    /// The path a shortcut operation ultimately works on, given the
    /// system root the search saw and the root the fallback used: the
    /// first existing probe's path, or — when no candidate exists — the
    /// default configuration file under the fallback root.
    pub open spec fn spec_effective_path(
        self,
        sys_root: Seq<char>,
        fallback_root: Seq<char>,
        local_root: Seq<char>,
        existing: Seq<Seq<char>>,
    ) -> Seq<char> {
        match self.spec_search_result(sys_root, local_root, existing) {
            Some(pf) => pf.0,
            None => self.spec_default_file(fallback_root),
        }
    }

    /// The format a shortcut operation decodes or encodes with: the
    /// first existing probe's format, or the default format when no
    /// candidate exists.
    pub open spec fn spec_effective_format(
        self,
        sys_root: Seq<char>,
        local_root: Seq<char>,
        existing: Seq<Seq<char>>,
    ) -> FileFormat {
        match self.spec_search_result(sys_root, local_root, existing) {
            Some(pf) => pf.1,
            None => self.default_format,
        }
    }

    /// Which fallback roots the default-path synthesis may use: exactly
    /// the local root, unless system files take precedence — then the
    /// platform answers the root and any value may appear.
    pub open spec fn spec_fallback_root_ok(
        self,
        fallback_root: Seq<char>,
        local_root: Seq<char>,
    ) -> bool {
        !self.config_option.sys_override_local ==> fallback_root == local_root
    }

    /// What the `read` shortcut returns under the given roots: the
    /// effective path decides between the missing-file error and a decode
    /// of that file in the effective format.
    pub open spec fn spec_read_outcome<T>(
        self,
        r: Result<T, ConrigError>,
        sys_root: Seq<char>,
        fallback_root: Seq<char>,
        local_root: Seq<char>,
        files: FileSnapshot,
    ) -> bool {
        let existing = entry_paths(files.entries@);
        let p = self.spec_effective_path(sys_root, fallback_root, local_root, existing);
        let f = self.spec_effective_format(sys_root, local_root, existing);
        &&& self.spec_fallback_root_ok(fallback_root, local_root)
        &&& (!files.spec_contains(p) ==> r == Result::<T, ConrigError>::Err(
            ConrigError::FileSystemError(FileSystemError::OpenConfig),
        ))
        &&& (files.spec_contains(p) ==> (r matches Err(e) ==> (
        e matches ConrigError::LangError(le) && f.is_decode_error(le))))
    }

    /// What the `write` shortcut returns under the given roots: a
    /// produced request targets exactly the effective path, and a failure
    /// is an encode error of the effective format.
    pub open spec fn spec_write_outcome(
        self,
        r: Result<WriteRequest, ConrigError>,
        sys_root: Seq<char>,
        fallback_root: Seq<char>,
        local_root: Seq<char>,
        files: FileSnapshot,
    ) -> bool {
        let existing = entry_paths(files.entries@);
        let p = self.spec_effective_path(sys_root, fallback_root, local_root, existing);
        let f = self.spec_effective_format(sys_root, local_root, existing);
        &&& self.spec_fallback_root_ok(fallback_root, local_root)
        &&& (r matches Ok(w) ==> w.path@ == p)
        &&& (r matches Err(e) ==> (e matches ConrigError::LangError(le) && f.is_encode_error(le)))
    }

    /// What the `read_or_new` shortcut returns under the given roots:
    /// when the effective path exists it is decoded and nothing is
    /// written; when it does not, the given default is returned unchanged
    /// together with the one request that creates that very file.
    pub open spec fn spec_read_or_new_outcome<T>(
        self,
        r: Result<(T, Option<WriteRequest>), ConrigError>,
        default: T,
        sys_root: Seq<char>,
        fallback_root: Seq<char>,
        local_root: Seq<char>,
        files: FileSnapshot,
    ) -> bool {
        let existing = entry_paths(files.entries@);
        let p = self.spec_effective_path(sys_root, fallback_root, local_root, existing);
        let f = self.spec_effective_format(sys_root, local_root, existing);
        &&& self.spec_fallback_root_ok(fallback_root, local_root)
        &&& (files.spec_contains(p) ==> {
            &&& r matches Ok(out) ==> out.1 is None
            &&& r matches Err(e) ==> (e matches ConrigError::LangError(le) && f.is_decode_error(
                le,
            ))
        })
        &&& (!files.spec_contains(p) ==> {
            &&& r matches Ok(out) ==> out.0 == default && (out.1 matches Some(w) && w.path@ == p)
            &&& r matches Err(e) ==> (e matches ConrigError::LangError(le) && f.is_encode_error(
                le,
            ))
        })
    }

    /// What the `read_or_default` shortcut returns under the given roots:
    /// as [`ConfigPathMetadata::spec_read_or_new_outcome`], except that
    /// the written value is the type's own default, which no contract
    /// names.
    pub open spec fn spec_read_or_default_outcome<T>(
        self,
        r: Result<(T, Option<WriteRequest>), ConrigError>,
        sys_root: Seq<char>,
        fallback_root: Seq<char>,
        local_root: Seq<char>,
        files: FileSnapshot,
    ) -> bool {
        let existing = entry_paths(files.entries@);
        let p = self.spec_effective_path(sys_root, fallback_root, local_root, existing);
        let f = self.spec_effective_format(sys_root, local_root, existing);
        &&& self.spec_fallback_root_ok(fallback_root, local_root)
        &&& (files.spec_contains(p) ==> {
            &&& r matches Ok(out) ==> out.1 is None
            &&& r matches Err(e) ==> (e matches ConrigError::LangError(le) && f.is_decode_error(
                le,
            ))
        })
        &&& (!files.spec_contains(p) ==> {
            &&& r matches Ok(out) ==> (out.1 matches Some(w) && w.path@ == p)
            &&& r matches Err(e) ==> (e matches ConrigError::LangError(le) && f.is_encode_error(
                le,
            ))
        })
    }

    /// From a successful search and a successful fallback, exhibits the
    /// pair of roots under which the produced handle carries exactly the
    /// effective path and format.
    proof fn lemma_effective_handle(
        self,
        raw: RawConfigFile,
        cf: ConfigFile,
        local_root: Seq<char>,
        existing: Seq<Seq<char>>,
    ) -> (roots: (Seq<char>, Seq<char>))
        requires
            raw.config.same_config(self),
            exists|sys: Seq<char>| self.spec_search_outcome(raw, sys, local_root, existing),
            raw.path matches Some(p) ==> cf.path == p && cf.file_format == raw.file_format,
            raw.path is None && !self.config_option.sys_override_local ==> cf.file_format
                == raw.file_format && cf.path@ == raw.config.spec_default_file(local_root),
            raw.path is None && self.config_option.sys_override_local ==> cf.file_format
                == raw.file_format && (exists|root: Seq<char>|
                cf.path@ == raw.config.spec_default_file(root)),
        ensures
            self.spec_fallback_root_ok(roots.1, local_root),
            cf.path@ == self.spec_effective_path(roots.0, roots.1, local_root, existing),
            cf.file_format == self.spec_effective_format(roots.0, local_root, existing),
    {
        let sys_w = choose|sys: Seq<char>| self.spec_search_outcome(raw, sys, local_root, existing);
        if raw.path is Some {
            (sys_w, local_root)
        } else {
            if !self.config_option.sys_override_local {
                lemma_same_config_default_file(raw.config, self, local_root);
                (sys_w, local_root)
            } else {
                let froot_w = choose|root: Seq<char>|
                    cf.path@ == raw.config.spec_default_file(root);
                lemma_same_config_default_file(raw.config, self, froot_w);
                (sys_w, froot_w)
            }
        }
    }

    /// Read a configuration file, using the default searching method.
    ///
    /// This is equivalent to
    /// `self.search_config_file(..)?.fallback_default(..)?.read(files)`.
    ///
    /// A fallback path is always installed first, so this never fails
    /// with [`ConrigError::NoConfigurationFile`].  Unless a missing
    /// system root ended the search, there are roots — answered by the
    /// platform — under which the result is pinned to the effective
    /// path: the missing-file error exactly when that path is absent
    /// from `files`, otherwise a decode of that file.
    pub fn read<T: serde::de::DeserializeOwned>(&self, local_root: &str, files: &FileSnapshot) -> (r:
        Result<T, ConrigError>)
        requires
            self.wf(),
        ensures
            r matches Err(e) ==> (e matches ConrigError::LangError(_) || e
                == ConrigError::FileSystemError(FileSystemError::NoProjectDirectory) || e
                == ConrigError::FileSystemError(FileSystemError::OpenConfig)),
            r == Result::<T, ConrigError>::Err(
                ConrigError::FileSystemError(FileSystemError::NoProjectDirectory),
            ) || (exists|sys_root: Seq<char>, fallback_root: Seq<char>|
                self.spec_read_outcome(r, sys_root, fallback_root, local_root@, *files)),
    {
        let existing = self.snapshot_paths(files);
        match self.search_config_file(local_root, &existing) {
            Ok(raw) => {
                let ghost graw = raw;
                match raw.fallback_default(local_root) {
                    Ok(cf) => {
                        let r = cf.read::<T>(files);
                        proof {
                            let roots = self.lemma_effective_handle(
                                graw,
                                cf,
                                local_root@,
                                seq_views(existing@),
                            );
                            assert(self.spec_read_outcome(
                                r,
                                roots.0,
                                roots.1,
                                local_root@,
                                *files,
                            ));
                        }
                        r
                    },
                    Err(e) => Err(e),
                }
            },
            Err(e) => Err(e),
        }
    }

    /// Write into a configuration file, using the default searching
    /// method, producing the [`WriteRequest`] the caller should persist.
    ///
    /// This is equivalent to
    /// `self.search_config_file(..)?.fallback_default(..)?.write(&foo)`.
    ///
    /// A fallback path is always installed first, so this never fails
    /// with [`ConrigError::NoConfigurationFile`].  Unless a missing
    /// system root ended the search, there are roots — answered by the
    /// platform — under which a produced request targets exactly the
    /// effective path: the first existing candidate, or the default file
    /// when nothing exists.
    pub fn write<T: serde::Serialize>(
        &self,
        value: &T,
        local_root: &str,
        files: &FileSnapshot,
    ) -> (r: Result<WriteRequest, ConrigError>)
        requires
            self.wf(),
        ensures
            r matches Err(e) ==> (e matches ConrigError::LangError(_) || e
                == ConrigError::FileSystemError(FileSystemError::NoProjectDirectory)),
            r == Result::<WriteRequest, ConrigError>::Err(
                ConrigError::FileSystemError(FileSystemError::NoProjectDirectory),
            ) || (exists|sys_root: Seq<char>, fallback_root: Seq<char>|
                self.spec_write_outcome(r, sys_root, fallback_root, local_root@, *files)),
    {
        let existing = self.snapshot_paths(files);
        match self.search_config_file(local_root, &existing) {
            Ok(raw) => {
                let ghost graw = raw;
                match raw.fallback_default(local_root) {
                    Ok(cf) => {
                        let r = cf.write(value);
                        proof {
                            let roots = self.lemma_effective_handle(
                                graw,
                                cf,
                                local_root@,
                                seq_views(existing@),
                            );
                            assert(self.spec_write_outcome(
                                r,
                                roots.0,
                                roots.1,
                                local_root@,
                                *files,
                            ));
                        }
                        r
                    },
                    Err(e) => Err(e),
                }
            },
            Err(e) => Err(e),
        }
    }

    /// Read a configuration file, or return the provided `default` value
    /// — unchanged — together with the [`WriteRequest`] that creates the
    /// file, using the default searching method.
    ///
    /// This is equivalent to
    /// `self.search_config_file(..)?.fallback_default(..)?.read_or_new(default, files)`.
    ///
    /// Unless a missing system root ended the search, there are roots —
    /// answered by the platform — under which the result is pinned to
    /// the effective path: an existing file is decoded and nothing is
    /// written; an absent one makes the call return `default` unchanged
    /// with the one request that creates exactly that file.
    pub fn read_or_new<T: serde::Serialize + serde::de::DeserializeOwned>(
        &self,
        default: T,
        local_root: &str,
        files: &FileSnapshot,
    ) -> (r: Result<(T, Option<WriteRequest>), ConrigError>)
        requires
            self.wf(),
        ensures
            r matches Err(e) ==> (e matches ConrigError::LangError(_) || e
                == ConrigError::FileSystemError(FileSystemError::NoProjectDirectory)),
            r == Result::<(T, Option<WriteRequest>), ConrigError>::Err(
                ConrigError::FileSystemError(FileSystemError::NoProjectDirectory),
            ) || (exists|sys_root: Seq<char>, fallback_root: Seq<char>|
                self.spec_read_or_new_outcome(
                    r,
                    default,
                    sys_root,
                    fallback_root,
                    local_root@,
                    *files,
                )),
    {
        let ghost gdefault = default;
        let existing = self.snapshot_paths(files);
        match self.search_config_file(local_root, &existing) {
            Ok(raw) => {
                let ghost graw = raw;
                match raw.fallback_default(local_root) {
                    Ok(cf) => {
                        let r = cf.read_or_new(default, files);
                        proof {
                            let roots = self.lemma_effective_handle(
                                graw,
                                cf,
                                local_root@,
                                seq_views(existing@),
                            );
                            assert(self.spec_read_or_new_outcome(
                                r,
                                gdefault,
                                roots.0,
                                roots.1,
                                local_root@,
                                *files,
                            ));
                        }
                        r
                    },
                    Err(e) => Err(e),
                }
            },
            Err(e) => Err(e),
        }
    }

    /// Read a configuration file, or create one holding the type's own
    /// default value, using the default searching method.
    ///
    /// This is equivalent to
    /// `self.search_config_file(..)?.fallback_default(..)?.read_or_default(files)`.
    ///
    /// Unless a missing system root ended the search, there are roots —
    /// answered by the platform — under which the result is pinned to
    /// the effective path: an existing file is decoded and nothing is
    /// written; an absent one makes the call produce the one request
    /// that creates exactly that file.
    pub fn read_or_default<
        T: serde::Serialize + serde::de::DeserializeOwned + core::default::Default,
    >(&self, local_root: &str, files: &FileSnapshot) -> (r: Result<
        (T, Option<WriteRequest>),
        ConrigError,
    >)
        requires
            self.wf(),
        ensures
            r matches Err(e) ==> (e matches ConrigError::LangError(_) || e
                == ConrigError::FileSystemError(FileSystemError::NoProjectDirectory)),
            r == Result::<(T, Option<WriteRequest>), ConrigError>::Err(
                ConrigError::FileSystemError(FileSystemError::NoProjectDirectory),
            ) || (exists|sys_root: Seq<char>, fallback_root: Seq<char>|
                self.spec_read_or_default_outcome(r, sys_root, fallback_root, local_root@, *files)),
    {
        let d0 = T::default();
        let ghost gd0 = d0;
        let r = self.read_or_new(d0, local_root, files);
        proof {
            if r != Result::<(T, Option<WriteRequest>), ConrigError>::Err(
                ConrigError::FileSystemError(FileSystemError::NoProjectDirectory),
            ) {
                let (sys_w, froot_w) = choose|sys_root: Seq<char>, fallback_root: Seq<char>|
                    self.spec_read_or_new_outcome(
                        r,
                        gd0,
                        sys_root,
                        fallback_root,
                        local_root@,
                        *files,
                    );
                assert(self.spec_read_or_default_outcome(
                    r,
                    sys_w,
                    froot_w,
                    local_root@,
                    *files,
                ));
            }
        }
        r
    }

    /// The existing paths of a snapshot, as the search expects them.
    fn snapshot_paths(&self, files: &FileSnapshot) -> (v: Vec<String>)
        ensures
            seq_views(v@) == crate::parser::entry_paths(files.entries@),
    {
        files.existing_paths()
    }
}

} // verus!
