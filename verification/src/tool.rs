//! Builder tools: the closed set of build drivers the engine can resolve,
//! with their home-variable aliases and default binary locations.

use vstd::prelude::*;
use vstd::string::*;

verus! {

/// The build drivers the engine knows.
#[derive(Clone, Copy, Debug, PartialEq, Eq, Structural)]
pub enum BuilderName {
    Maven,
    Gradle,
}

/// A resolved builder installation: its kind, its home directory, and an
/// optional explicit binary path (derived from the home when absent).
#[derive(Debug, PartialEq, Eq)]
pub struct BuilderDesc {
    pub name: BuilderName,
    pub home: String,
    pub bin: Option<String>,
}

/// The mathematical model of a resolved builder installation.
pub ghost struct BuilderDescModel {
    pub name: BuilderName,
    pub home: Seq<char>,
    pub bin: Option<Seq<char>>,
}

impl View for BuilderDesc {
    type V = BuilderDescModel;

    open spec fn view(&self) -> BuilderDescModel {
        BuilderDescModel {
            name: self.name,
            home: self.home@,
            bin: crate::strutil::spec_opt_str(&self.bin),
        }
    }
}

impl BuilderDesc {
    /// The environment variable names that carry this builder's home.
    pub open spec fn spec_home_names(self) -> Seq<Seq<char>> {
        match self.name {
            BuilderName::Maven => seq!["M2_HOME"@, "MAVEN_HOME"@],
            BuilderName::Gradle => seq!["GRADLE_HOME"@],
        }
    }

    /// The binary to invoke: the explicit one if set, else
    /// `<home>/bin/<tool-executable-name>`.
    pub open spec fn spec_builder_bin(self) -> Seq<char> {
        match self.bin {
            Some(b) => b@,
            None => match self.name {
                BuilderName::Maven => self.home@ + "/bin/mvn"@,
                BuilderName::Gradle => self.home@ + "/bin/gradle"@,
            },
        }
    }

    /// Every home-variable alias recognized for this builder's kind.
    pub fn get_builder_home_name(&self) -> (r: Vec<String>)
        ensures
            r@.len() == self.spec_home_names().len(),
            forall|i: int| 0 <= i < r@.len() ==> r@[i]@ == self.spec_home_names()[i],
    {
        let mut v: Vec<String> = Vec::new();
        match self.name {
            BuilderName::Maven => {
                v.push(String::from_str("M2_HOME"));
                v.push(String::from_str("MAVEN_HOME"));
            },
            BuilderName::Gradle => {
                v.push(String::from_str("GRADLE_HOME"));
            },
        }
        v
    }

    /// The binary path to invoke for this builder.
    pub fn get_builder_bin(&self) -> (r: String)
        ensures
            r@ == self.spec_builder_bin(),
    {
        match &self.bin {
            Some(b) => b.clone(),
            None => match self.name {
                BuilderName::Maven => crate::strutil::concat2(self.home.as_str(), "/bin/mvn"),
                BuilderName::Gradle => crate::strutil::concat2(
                    self.home.as_str(),
                    "/bin/gradle",
                ),
            },
        }
    }
}

/// Which builder a textual name denotes, if any.
pub open spec fn spec_builder_of(name: Seq<char>) -> Option<BuilderName> {
    if name == "maven"@ {
        Some(BuilderName::Maven)
    } else if name == "gradle"@ {
        Some(BuilderName::Gradle)
    } else {
        None
    }
}

/// Parses a builder name; any name other than the known builders is rejected.
pub fn builder_of(name: &str) -> (r: Option<BuilderName>)
    ensures
        r == spec_builder_of(name@),
{
    if crate::strutil::eq_str(name, "maven") {
        Some(BuilderName::Maven)
    } else if crate::strutil::eq_str(name, "gradle") {
        Some(BuilderName::Gradle)
    } else {
        None
    }
}

} // verus!
