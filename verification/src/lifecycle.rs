use vstd::prelude::*;

use vstd::string::StringExecFns;

use crate::schema::{
    gen_doc_model, generated_from_text, parse_gen_doc, parse_user_doc, render_generated,
    render_user, user_doc_model, user_from_text,
};
use crate::toml_model::toml_doc;
use crate::types::{
    default_generated_v, default_user_v, Config, ConfigV, GeneratedConfig, GeneratedConfigV,
    UserConfig, UserConfigV,
};
use crate::ConfigError;

verus! {

// The lifecycle manager proper. It never touches the filesystem itself:
// the caller probes the disk and hands the findings in as plain values,
// and gets back the decisions and the texts to write.

/// What a filesystem probe found at the configuration directory's path.
#[derive(Debug, Clone, Copy, PartialEq, Eq)]
pub enum FolderProbe {
    /// Nothing exists at the path.
    Missing,
    /// A regular file sits where the directory should be.
    IsFile,
    /// The directory exists.
    IsDir,
}

/// What a filesystem probe found at one document's path.
#[derive(Debug, Clone, PartialEq, Eq)]
pub enum DocProbe {
    /// Nothing exists at the path.
    Missing,
    /// A directory sits where the file should be.
    IsDir,
    /// The file exists but reading it failed.
    ReadFailed,
    /// The file's full text.
    Content(String),
}

/// Mathematical value of a `DocProbe`.
pub ghost enum DocProbeV {
    Missing,
    IsDir,
    ReadFailed,
    Content(Seq<char>),
}

impl View for DocProbe {
    type V = DocProbeV;

    open spec fn view(&self) -> DocProbeV {
        match self {
            DocProbe::Missing => DocProbeV::Missing,
            DocProbe::IsDir => DocProbeV::IsDir,
            DocProbe::ReadFailed => DocProbeV::ReadFailed,
            DocProbe::Content(s) => DocProbeV::Content(s@),
        }
    }
}

/// Everything `Config::load` needs to know of the disk.
#[derive(Debug, Clone, PartialEq, Eq)]
pub struct LoadProbe {
    pub folder: FolderProbe,
    pub user: DocProbe,
    pub generated: DocProbe,
}

/// Mathematical value of a `LoadProbe`.
pub ghost struct LoadProbeV {
    pub folder: FolderProbe,
    pub user: DocProbeV,
    pub generated: DocProbeV,
}

impl View for LoadProbe {
    type V = LoadProbeV;

    open spec fn view(&self) -> LoadProbeV {
        LoadProbeV { folder: self.folder, user: self.user@, generated: self.generated@ }
    }
}

/// What a successful `Config::load` asks its caller to do: create the
/// directory if asked, then perform the writes. A failed load asks for
/// nothing.
#[derive(Debug, Clone)]
pub struct LoadOutcome {
    pub config: Config,
    /// True exactly when the directory was missing and must be created
    /// (with any missing ancestors) before the writes.
    pub create_folder: bool,
    /// The user document to write, exactly when that file was missing.
    pub write_user: Option<String>,
    /// The generated document to write, exactly when that file was missing.
    pub write_generated: Option<String>,
}

/// A file write the caller performs: overwrite `path` with `contents`.
#[derive(Debug, Clone, PartialEq, Eq)]
pub struct WriteRequest {
    pub path: String,
    pub contents: String,
}

/// How loading the user document fails for a given probe, if it does:
/// a missing file is not a failure (the default is written), a directory in
/// its place is a conflict, an unreadable file is an I/O failure, and
/// content is rejected exactly when it is not a valid user document.
pub open spec fn user_doc_error(d: DocProbeV) -> Option<ConfigError> {
    match d {
        DocProbeV::Missing => None,
        DocProbeV::IsDir => Some(ConfigError::Conflict),
        DocProbeV::ReadFailed => Some(ConfigError::Io),
        DocProbeV::Content(s) => match toml_doc(s) {
            None => Some(ConfigError::Parse),
            Some(doc) => if parse_user_doc(doc) is Some {
                None
            } else {
                Some(ConfigError::Parse)
            },
        },
    }
}

/// The user value a successful load yields for a given probe: the default
/// where the file was missing, else the parsed document.
pub open spec fn user_doc_value(d: DocProbeV) -> UserConfigV {
    match d {
        DocProbeV::Content(s) => match toml_doc(s) {
            Some(doc) => match parse_user_doc(doc) {
                Some(u) => u,
                None => default_user_v(),
            },
            None => default_user_v(),
        },
        _ => default_user_v(),
    }
}

/// How loading the generated document fails for a given probe, if it does.
pub open spec fn gen_doc_error(d: DocProbeV) -> Option<ConfigError> {
    match d {
        DocProbeV::Missing => None,
        DocProbeV::IsDir => Some(ConfigError::Conflict),
        DocProbeV::ReadFailed => Some(ConfigError::Io),
        DocProbeV::Content(s) => match toml_doc(s) {
            None => Some(ConfigError::Parse),
            Some(doc) => if parse_gen_doc(doc) is Some {
                None
            } else {
                Some(ConfigError::Parse)
            },
        },
    }
}

/// The generated value a successful load yields for a given probe.
pub open spec fn gen_doc_value(d: DocProbeV) -> GeneratedConfigV {
    match d {
        DocProbeV::Content(s) => match toml_doc(s) {
            Some(doc) => match parse_gen_doc(doc) {
                Some(g) => g,
                None => default_generated_v(),
            },
            None => default_generated_v(),
        },
        _ => default_generated_v(),
    }
}

/// How `Config::load` fails for a given probe, if it does: a directory path
/// held by a file is a conflict; otherwise the user document is ensured
/// first and the generated document second, and the first failure wins.
pub open spec fn load_error(p: LoadProbeV) -> Option<ConfigError> {
    if p.folder is IsFile {
        Some(ConfigError::Conflict)
    } else if user_doc_error(p.user) is Some {
        user_doc_error(p.user)
    } else if gen_doc_error(p.generated) is Some {
        gen_doc_error(p.generated)
    } else {
        None
    }
}

/// How reloading one document fails for a given probe, if it does: reload
/// never recreates a missing file, so only readable content can succeed.
pub open spec fn user_reload_error(d: DocProbeV) -> Option<ConfigError> {
    match d {
        DocProbeV::Content(s) => match toml_doc(s) {
            None => Some(ConfigError::Parse),
            Some(doc) => if parse_user_doc(doc) is Some {
                None
            } else {
                Some(ConfigError::Parse)
            },
        },
        _ => Some(ConfigError::Io),
    }
}

/// How reloading the generated document fails for a given probe, if it does.
pub open spec fn gen_reload_error(d: DocProbeV) -> Option<ConfigError> {
    match d {
        DocProbeV::Content(s) => match toml_doc(s) {
            None => Some(ConfigError::Parse),
            Some(doc) => if parse_gen_doc(doc) is Some {
                None
            } else {
                Some(ConfigError::Parse)
            },
        },
        _ => Some(ConfigError::Io),
    }
}

/// How `Config::reload` fails, if it does: the user document first, then
/// the generated one.
pub open spec fn reload_error(u: DocProbeV, g: DocProbeV) -> Option<ConfigError> {
    if user_reload_error(u) is Some {
        user_reload_error(u)
    } else if gen_reload_error(g) is Some {
        gen_reload_error(g)
    } else {
        None
    }
}

/// Ensures the user document is loaded: a missing file yields the default
/// value and the text to seed the file with; existing content must parse.
fn ensure_user(probe: &DocProbe) -> (r: Result<(UserConfig, Option<String>), ConfigError>)
    ensures
        match r {
            Ok(p) => user_doc_error(probe@) is None && p.0@ == user_doc_value(probe@) && (
            p.1 is Some <==> probe@ is Missing) && (p.1 matches Some(t) ==> toml_doc(t@) == Some(
                user_doc_model(default_user_v()),
            )),
            Err(e) => user_doc_error(probe@) == Some(e),
        },
{
    match probe {
        DocProbe::Missing => {
            let u = UserConfig::default();
            let text = render_user(&u);
            Ok((u, Some(text)))
        },
        DocProbe::IsDir => Err(ConfigError::Conflict),
        DocProbe::ReadFailed => Err(ConfigError::Io),
        DocProbe::Content(s) => match user_from_text(s.as_str()) {
            Some(u) => Ok((u, None)),
            None => Err(ConfigError::Parse),
        },
    }
}

/// Ensures the generated document is loaded, as `ensure_user` does for the
/// user document.
fn ensure_generated(probe: &DocProbe) -> (r: Result<(GeneratedConfig, Option<String>), ConfigError>)
    ensures
        match r {
            Ok(p) => gen_doc_error(probe@) is None && p.0@ == gen_doc_value(probe@) && (
            p.1 is Some <==> probe@ is Missing) && (p.1 matches Some(t) ==> toml_doc(t@) == Some(
                gen_doc_model(default_generated_v()),
            )),
            Err(e) => gen_doc_error(probe@) == Some(e),
        },
{
    match probe {
        DocProbe::Missing => {
            let g = GeneratedConfig::default();
            let text = render_generated(&g);
            Ok((g, Some(text)))
        },
        DocProbe::IsDir => Err(ConfigError::Conflict),
        DocProbe::ReadFailed => Err(ConfigError::Io),
        DocProbe::Content(s) => match generated_from_text(s.as_str()) {
            Some(g) => Ok((g, None)),
            None => Err(ConfigError::Parse),
        },
    }
}

impl Config {
    /// Assembles the in-memory configuration from what a probe of the disk
    /// found. The directory path must hold a directory or nothing; each
    /// document is ensured independently, the user one first, and the first
    /// failure is returned with no work asked of the caller. On success the
    /// caller creates the directory and performs the writes the outcome
    /// lists: exactly the documents that were missing, seeded with their
    /// defaults.
    pub fn load(folder: String, probe: LoadProbe) -> (r: Result<LoadOutcome, ConfigError>)
        ensures
            r is Err <==> load_error(probe@) is Some,
            r matches Err(e) ==> load_error(probe@) == Some(e),
            r matches Ok(o) ==> o.config@.config_folder == folder@ && o.config@.user_file
                == folder@ + "/config.toml"@ && o.config@.generated_file == folder@
                + "/generated.toml"@ && o.config@.user == user_doc_value(probe@.user)
                && o.config@.generated == gen_doc_value(probe@.generated) && o.create_folder == (
            probe@.folder is Missing) && (o.write_user is Some <==> probe@.user is Missing) && (
            o.write_user matches Some(t) ==> toml_doc(t@) == Some(
                user_doc_model(default_user_v()),
            )) && (o.write_generated is Some <==> probe@.generated is Missing) && (
            o.write_generated matches Some(t) ==> toml_doc(t@) == Some(
                gen_doc_model(default_generated_v()),
            )),
    {
        match probe.folder {
            FolderProbe::IsFile => {
                return Err(ConfigError::Conflict);
            },
            _ => (),
        }
        let create_folder = match probe.folder {
            FolderProbe::Missing => true,
            _ => false,
        };
        let (user, write_user) = match ensure_user(&probe.user) {
            Ok(p) => p,
            Err(e) => {
                return Err(e);
            },
        };
        let (generated, write_generated) = match ensure_generated(&probe.generated) {
            Ok(p) => p,
            Err(e) => {
                return Err(e);
            },
        };
        let user_file = folder.clone().concat("/config.toml");
        let generated_file = folder.clone().concat("/generated.toml");
        Ok(
            LoadOutcome {
                config: Config { config_folder: folder, user_file, generated_file, user, generated },
                create_folder,
                write_user,
                write_generated,
            },
        )
    }

    /// The write that persists the tool-managed state: the generated
    /// document, at its recorded path. The user document is operator-owned
    /// and is not rewritten. The caller performs the write.
    pub fn save(&self) -> (r: WriteRequest)
        ensures
            r.path@ == self.generated_file@,
            toml_doc(r.contents@) == Some(gen_doc_model(self.generated@)),
    {
        WriteRequest {
            path: self.generated_file.clone(),
            contents: render_generated(&self.generated),
        }
    }

    /// Replaces both in-memory documents with what the probes found at the
    /// paths already recorded here, discarding unsaved changes. Unlike
    /// `load`, a missing or unreadable file is an error, not an invitation
    /// to recreate it; on any failure the in-memory value is left exactly
    /// as it was.
    pub fn reload(&mut self, user: DocProbe, generated: DocProbe) -> (r: Result<(), ConfigError>)
        ensures
            r is Err <==> reload_error(user@, generated@) is Some,
            r matches Err(e) ==> reload_error(user@, generated@) == Some(e) && final(self)@ == old(
                self,
            )@,
            r is Ok ==> final(self)@ == (ConfigV {
                user: user_doc_value(user@),
                generated: gen_doc_value(generated@),
                ..old(self)@
            }),
    {
        let new_user = match &user {
            DocProbe::Content(s) => match user_from_text(s.as_str()) {
                Some(u) => u,
                None => {
                    return Err(ConfigError::Parse);
                },
            },
            _ => {
                return Err(ConfigError::Io);
            },
        };
        let new_generated = match &generated {
            DocProbe::Content(s) => match generated_from_text(s.as_str()) {
                Some(g) => g,
                None => {
                    return Err(ConfigError::Parse);
                },
            },
            _ => {
                return Err(ConfigError::Io);
            },
        };
        self.user = new_user;
        self.generated = new_generated;
        Ok(())
    }

    /// Records a launch time, touching nothing else.
    pub fn set_last_launch(&mut self, now: i64)
        ensures
            final(self)@ == (ConfigV {
                generated: GeneratedConfigV { last_launch: Some(now) },
                ..old(self)@
            }),
    {
        self.generated.last_launch = Some(now);
    }
}

} // verus!
