//! Where the manifest of a run is read from, and in which format.

use vstd::prelude::*;
use crate::manifest::format::ManifestFormat;
use crate::paths::{file_name, final_component, join_path, joined_path};

verus! {

/// The manifest file of a run and the format it is read in.
#[derive(Debug)]
pub struct ManifestSource {
    pub filepath: String,
    pub format: ManifestFormat,
}

/// A manifest found among the entries of a directory.
#[derive(Clone, Copy, Debug, PartialEq, Eq, Structural)]
pub struct Located {
    /// The place of the entry among those given.
    pub index: usize,
    /// The format that claims the entry.
    pub format: ManifestFormat,
}

/// Whether `found` is the first of the names that some format claims,
/// with the first format of the registry that claims it.
pub open spec fn is_first_manifest(names: Seq<String>, found: Option<Located>) -> bool {
    match found {
        Some(located) => {
            &&& located.index < names.len()
            &&& ManifestFormat::detect_spec(names[located.index as int]@) == Some(located.format)
            &&& forall|k: int|
                0 <= k < located.index ==> ManifestFormat::detect_spec(
                    (#[trigger] names[k])@,
                ) is None
        },
        None => forall|k: int|
            0 <= k < names.len() ==> ManifestFormat::detect_spec((#[trigger] names[k])@) is None,
    }
}

/// The format of the manifest file at a path: the one that claims the
/// final component of the path. `None` where the path has no final
/// component, or no format claims it.
pub open spec fn format_of_path(filepath: Seq<char>) -> Option<ManifestFormat> {
    match final_component(filepath) {
        Some(name) => ManifestFormat::detect_spec(name),
        None => None,
    }
}

impl ManifestSource {
    /// The source for a manifest file that the user named, in the format
    /// that claims its name. `None` where no format does.
    pub fn from_path(filepath: String) -> (source: Option<ManifestSource>)
        ensures
            match source {
                Some(s) => format_of_path(filepath@) == Some(s.format) && s.filepath@ == filepath@,
                None => format_of_path(filepath@) is None,
            },
    {
        match file_name(filepath.as_str()) {
            Some(name) => Self::from_filename(filepath, name.as_str()),
            None => None,
        }
    }

    /// The source for the manifest of a directory, found among the names of
    /// its entries in the order given: the first entry that some format
    /// claims, in that directory. `None` where no entry is claimed.
    pub fn in_directory(dirpath: &str, names: &Vec<String>) -> (source: Option<ManifestSource>)
        ensures
            match source {
                Some(s) => exists|located: Located|
                    {
                        &&& is_first_manifest(names@, Some(located))
                        &&& s.format == located.format
                        &&& s.filepath@ == joined_path(dirpath@, names@[located.index as int]@)
                    },
                None => is_first_manifest(names@, None),
            },
    {
        match Self::locate(names) {
            Some(located) => Some(
                ManifestSource {
                    filepath: join_path(dirpath, names[located.index].as_str()),
                    format: located.format,
                },
            ),
            None => None,
        }
    }

    /// The source for a manifest file that the user named: the file at
    /// `filepath`, whose last component is `filename`, in the format that
    /// claims that name. `None` where no format claims it.
    pub fn from_filename(filepath: String, filename: &str) -> (source: Option<ManifestSource>)
        ensures
            match source {
                Some(s) => ManifestFormat::detect_spec(filename@) == Some(s.format) && s.filepath@
                    == filepath@,
                None => ManifestFormat::detect_spec(filename@) is None,
            },
    {
        match ManifestFormat::detect(filename) {
            Some(format) => Some(ManifestSource { filepath, format }),
            None => None,
        }
    }

    /// Looks for a manifest among the names of a directory's entries, in
    /// the order given: the first name that some format claims.
    pub fn locate(names: &Vec<String>) -> (found: Option<Located>)
        ensures
            is_first_manifest(names@, found),
    {
        let mut i: usize = 0;
        while i < names.len()
            invariant
                i <= names.len(),
                forall|k: int| 0 <= k < i ==> ManifestFormat::detect_spec((#[trigger] names@[k])@) is None,
            decreases names.len() - i,
        {
            match ManifestFormat::detect(names[i].as_str()) {
                Some(format) => {
                    return Some(Located { index: i, format });
                },
                None => {},
            }
            i += 1;
        }
        None
    }
}

} // verus!
