//! How a scanned plug-in is named: by its reverse domain name and its format.

use vstd::prelude::*;
use vstd::string::StringExecFns;

verus! {

/// The format of a plug-in.
#[derive(Debug, Clone, Copy, PartialEq, Eq, Structural, Hash)]
#[non_exhaustive]
pub enum PluginFormat {
    /// Built into the host.
    Internal,
    /// The CLAP format.
    Clap,
}

impl PluginFormat {
    /// The name of a format in lower case.
    pub open spec fn name_text(&self) -> Seq<char> {
        match self {
            PluginFormat::Internal => "internal"@,
            PluginFormat::Clap => "clap"@,
        }
    }

    /// The name of a format as `{:?}` prints it.
    pub open spec fn debug_form(&self) -> Seq<char> {
        match self {
            PluginFormat::Internal => "Internal"@,
            PluginFormat::Clap => "Clap"@,
        }
    }

    /// The name of a format, for a person to read.
    pub fn name(&self) -> (text: String)
        ensures
            text@ == self.name_text(),
    {
        match self {
            PluginFormat::Internal => String::from_str("internal"),
            PluginFormat::Clap => String::from_str("clap"),
        }
    }

    /// The name of a format as `{:?}` prints it.
    pub fn debug_name(&self) -> (text: String)
        ensures
            text@ == self.debug_form(),
    {
        match self {
            PluginFormat::Internal => String::from_str("Internal"),
            PluginFormat::Clap => String::from_str("Clap"),
        }
    }
}

/// The name under which a scanned plug-in is found again.
#[derive(Debug)]
pub struct ScannedPluginKey {
    pub rdn: String,
    pub format: PluginFormat,
}

impl View for ScannedPluginKey {
    type V = (Seq<char>, PluginFormat);

    open spec fn view(&self) -> (Seq<char>, PluginFormat) {
        (self.rdn@, self.format)
    }
}

impl Clone for ScannedPluginKey {
    fn clone(&self) -> (r: Self)
        ensures
            r@ == self@,
    {
        ScannedPluginKey { rdn: self.rdn.clone(), format: self.format }
    }
}

impl ScannedPluginKey {
    /// The two keys name the same plug-in in the same format.
    pub fn same_as(&self, other: &ScannedPluginKey) -> (r: bool)
        ensures
            r == (self@ == other@),
    {
        self.format == other.format && self.rdn == other.rdn
    }
}

} // verus!
