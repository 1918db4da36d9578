//! The package list: what to install and where each payload comes from.

use vstd::prelude::*;

verus! {

/// One installable package.
///
/// The name is shown while the package is worked on and is the name of the
/// installed file. Names need not differ from package to package: two
/// packages of one name are written to one path, and the later write stays.
#[derive(Debug, PartialEq, Eq)]
pub enum PackageConfig {
    /// The payload is the entry `bin` of the archive fetched from `archive`.
    Archive { name: String, bin: String, archive: String },
    /// The payload is the whole body fetched from `url`.
    Binary { name: String, url: String },
}

/// The mathematical content of a [`PackageConfig`].
pub enum PackageView {
    Archive { name: Seq<char>, bin: Seq<char>, archive: Seq<char> },
    Binary { name: Seq<char>, url: Seq<char> },
}

impl PackageView {
    /// The display name, which is also the installed file's name.
    pub open spec fn name(self) -> Seq<char> {
        match self {
            PackageView::Archive { name, .. } => name,
            PackageView::Binary { name, .. } => name,
        }
    }

    /// The URL whose body has to be fetched for this package.
    pub open spec fn source_url(self) -> Seq<char> {
        match self {
            PackageView::Archive { archive, .. } => archive,
            PackageView::Binary { url, .. } => url,
        }
    }
}

impl View for PackageConfig {
    type V = PackageView;

    open spec fn view(&self) -> PackageView {
        match self {
            PackageConfig::Archive { name, bin, archive } => PackageView::Archive {
                name: name@,
                bin: bin@,
                archive: archive@,
            },
            PackageConfig::Binary { name, url } => PackageView::Binary { name: name@, url: url@ },
        }
    }
}

/// Why a package's description was turned down.
#[derive(Clone, Copy, Debug, PartialEq, Eq)]
pub enum ConfigError {
    /// The description has no `name`.
    MissingName,
    /// The `name` is empty.
    EmptyName,
    /// The description fits neither shape: it has no `url`, and not both of
    /// `bin` and `archive`.
    NoSource,
    /// The description fits both shapes: it has `bin` and `archive`, and a
    /// `url` as well.
    AmbiguousSource,
}

/// A text that is or is not there, as a mathematical value.
pub open spec fn field_view(field: Option<String>) -> Option<Seq<char>> {
    match field {
        Some(text) => Some(text@),
        None => None,
    }
}

/// A decoded package or the reason there is none, as mathematical values.
pub open spec fn decoded_view(r: Result<PackageConfig, ConfigError>) -> Result<
    PackageView,
    ConfigError,
> {
    match r {
        Ok(package) => Ok(package@),
        Err(e) => Err(e),
    }
}

/// The package that a description's fields stand for. The shape is told
/// from the fields that are present: `bin` with `archive` is an archive,
/// `url` is a bare binary. A description that fits both shapes or neither is
/// turned down, and so is one without a name or with an empty one.
pub open spec fn decoded(
    name: Option<Seq<char>>,
    bin: Option<Seq<char>>,
    archive: Option<Seq<char>>,
    url: Option<Seq<char>>,
) -> Result<PackageView, ConfigError> {
    match name {
        None => Err(ConfigError::MissingName),
        Some(name) => if name.len() == 0 {
            Err(ConfigError::EmptyName)
        } else {
            let fits_archive = bin is Some && archive is Some;
            let fits_binary = url is Some;
            if fits_archive && fits_binary {
                Err(ConfigError::AmbiguousSource)
            } else if fits_archive {
                Ok(PackageView::Archive { name, bin: bin->0, archive: archive->0 })
            } else if fits_binary {
                Ok(PackageView::Binary { name, url: url->0 })
            } else {
                Err(ConfigError::NoSource)
            }
        },
    }
}

impl Clone for PackageConfig {
    /// A copy with the same content.
    fn clone(&self) -> (copy: PackageConfig)
        ensures
            copy == *self,
    {
        match self {
            PackageConfig::Archive { name, bin, archive } => PackageConfig::Archive {
                name: name.clone(),
                bin: bin.clone(),
                archive: archive.clone(),
            },
            PackageConfig::Binary { name, url } => PackageConfig::Binary {
                name: name.clone(),
                url: url.clone(),
            },
        }
    }
}

impl PackageConfig {
    /// A package is well formed when it has a name to install under.
    pub open spec fn well_formed(&self) -> bool {
        self@.name().len() > 0
    }

    /// Builds a package from the fields of its description, present or
    /// not. Every package that comes out is well formed.
    pub fn from_fields(
        name: Option<String>,
        bin: Option<String>,
        archive: Option<String>,
        url: Option<String>,
    ) -> (package: Result<PackageConfig, ConfigError>)
        ensures
            decoded_view(package) == decoded(
                field_view(name),
                field_view(bin),
                field_view(archive),
                field_view(url),
            ),
            package matches Ok(p) ==> p.well_formed(),
    {
        let name = match name {
            Some(name) => name,
            None => {
                return Err(ConfigError::MissingName);
            },
        };
        if name.as_str().is_empty() {
            return Err(ConfigError::EmptyName);
        }
        match (bin, archive, url) {
            (Some(_), Some(_), Some(_)) => Err(ConfigError::AmbiguousSource),
            (Some(bin), Some(archive), None) => Ok(PackageConfig::Archive { name, bin, archive }),
            (_, _, Some(url)) => Ok(PackageConfig::Binary { name, url }),
            (_, _, None) => Err(ConfigError::NoSource),
        }
    }

    /// The display name, which is also the installed file's name.
    pub fn name(&self) -> (name: &str)
        ensures
            name@ == self@.name(),
    {
        match self {
            PackageConfig::Archive { name, .. } => name.as_str(),
            PackageConfig::Binary { name, .. } => name.as_str(),
        }
    }

    /// The URL whose body has to be fetched for this package.
    pub fn source_url(&self) -> (url: &str)
        ensures
            url@ == self@.source_url(),
    {
        match self {
            PackageConfig::Archive { archive, .. } => archive.as_str(),
            PackageConfig::Binary { url, .. } => url.as_str(),
        }
    }
}

/// One package as a configuration file spells it: each field is there or
/// not.
#[derive(Debug, PartialEq, Eq)]
pub struct PackageFields {
    pub name: Option<String>,
    pub bin: Option<String>,
    pub archive: Option<String>,
    pub url: Option<String>,
}

impl PackageFields {
    /// The package that these fields stand for.
    pub open spec fn decoded(&self) -> Result<PackageView, ConfigError> {
        decoded(
            field_view(self.name),
            field_view(self.bin),
            field_view(self.archive),
            field_view(self.url),
        )
    }

    /// Builds the package that these fields stand for.
    pub fn decode(&self) -> (package: Result<PackageConfig, ConfigError>)
        ensures
            decoded_view(package) == self.decoded(),
            package matches Ok(p) ==> p.well_formed(),
    {
        PackageConfig::from_fields(
            copy_field(&self.name),
            copy_field(&self.bin),
            copy_field(&self.archive),
            copy_field(&self.url),
        )
    }
}

/// Copies a field that is or is not there.
fn copy_field(field: &Option<String>) -> (copy: Option<String>)
    ensures
        copy == *field,
{
    match field {
        Some(text) => Some(text.clone()),
        None => None,
    }
}

/// The first description of a list that was turned down, and why.
#[derive(Clone, Copy, Debug, PartialEq, Eq)]
pub struct DecodeError {
    /// The position of the description in the list, counted from 0.
    pub index: usize,
    pub error: ConfigError,
}

/// Decodes a package list as a whole. Either every description stands for
/// a package, and the packages come out in the order of the list, or the
/// list is turned down for its first description that does not.
pub fn decode_packages(fields: &Vec<PackageFields>) -> (packages: Result<
    Vec<PackageConfig>,
    DecodeError,
>)
    ensures
        match packages {
            Ok(list) => {
                &&& list@.len() == fields@.len()
                &&& forall|i: int|
                    0 <= i < list@.len() ==> (#[trigger] fields@[i]).decoded() == Ok::<
                        PackageView,
                        ConfigError,
                    >(list@[i]@) && list@[i].well_formed()
            },
            Err(e) => {
                &&& e.index < fields@.len()
                &&& fields@[e.index as int].decoded() == Err::<PackageView, ConfigError>(e.error)
                &&& forall|j: int| 0 <= j < e.index ==> (#[trigger] fields@[j]).decoded() is Ok
            },
        },
{
    let mut list: Vec<PackageConfig> = Vec::new();
    let mut i: usize = 0;
    while i < fields.len()
        invariant
            i <= fields@.len(),
            list@.len() == i,
            forall|j: int|
                0 <= j < i ==> (#[trigger] fields@[j]).decoded() == Ok::<PackageView, ConfigError>(
                    list@[j]@,
                ) && list@[j].well_formed(),
        decreases fields@.len() - i,
    {
        match fields[i].decode() {
            Ok(package) => list.push(package),
            Err(error) => {
                return Err(DecodeError { index: i, error });
            },
        }
        i += 1;
    }
    Ok(list)
}

} // verus!
