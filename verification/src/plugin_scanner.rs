//! The plug-ins that the host knows of, and the making of instances of them.

use crate::host_request::{HostRequest, CALLBACK, PROCESS, RESTART};
use crate::plugin::{PluginInstanceID, PluginInstanceType, PluginMainThread};
use crate::plugin_host::{new_host, text_of, PluginInstanceHost};
use crate::plugin_key::{PluginFormat, ScannedPluginKey};
use crate::save_state::{PluginSaveState, PluginSaveStateView};
use crate::text::{decimal, decimal_text, joined};
use vstd::prelude::*;
use vstd::string::StringExecFns;

verus! {

/// How deep below a scan directory plug-ins are looked for.
pub const MAX_SCAN_DEPTH: usize = 10;

/// What a plug-in says of itself.
#[derive(Debug)]
pub struct PluginDescriptor {
    /// The reverse domain name of the plug-in.
    pub id: String,
    pub version: String,
    pub name: String,
    pub vendor: String,
}

impl Clone for PluginDescriptor {
    fn clone(&self) -> (r: Self)
        ensures
            r.id@ == self.id@,
            r.version@ == self.version@,
            r.name@ == self.name@,
            r.vendor@ == self.vendor@,
    {
        PluginDescriptor {
            id: self.id.clone(),
            version: self.version.clone(),
            name: self.name.clone(),
            vendor: self.vendor.clone(),
        }
    }
}

/// A plug-in that a scan has found.
#[derive(Debug)]
pub struct ScannedPlugin {
    pub description: PluginDescriptor,
    pub format: PluginFormat,
    pub format_version: Option<String>,
    pub key: ScannedPluginKey,
}

/// What makes instances of one plug-in.
pub trait PluginFactory {
    type MainThread: PluginMainThread;

    /// What the plug-in says of itself.
    fn description(&self) -> PluginDescriptor;

    /// A new instance. The plug-in may not ask anything of the host yet:
    /// what it asks for here is dropped.
    fn new_instance(&mut self, host_request: &mut HostRequest) -> Result<Self::MainThread, String>;
}

/// A factory with the name under which it was scanned.
pub struct ScannedPluginFactory<F: PluginFactory> {
    pub description: PluginDescriptor,
    pub rdn: String,
    pub format: PluginFormat,
    pub factory: F,
}

/// What a rescan has found.
#[derive(Debug)]
pub struct RescanPluginDirectoriesRes {
    /// The plug-ins that were found, each name once.
    pub scanned_plugins: Vec<ScannedPlugin>,
    /// The binaries that could not be scanned, each with the reason.
    pub failed_plugins: Vec<(String, String)>,
}

/// Why no instance of a plug-in could be made.
#[derive(Debug)]
pub enum NewPluginInstanceError {
    FactoryFailedToCreateNewInstance(String, String),
    PluginFailedToInit(String, String),
    NotFound(String),
    FormatNotFound(String, PluginFormat),
}

impl NewPluginInstanceError {
    /// The message of an error.
    pub open spec fn message_text(&self) -> Seq<char> {
        match self {
            NewPluginInstanceError::FactoryFailedToCreateNewInstance(n, e) => {
                "Failed to create instance of plugin "@ + n@
                    + ": plugin factory failed to create new instance: "@ + e@
            },
            NewPluginInstanceError::PluginFailedToInit(n, e) => {
                "Failed to create instance of plugin "@ + n@
                    + ": plugin instance failed to initialize: "@ + e@
            },
            NewPluginInstanceError::NotFound(n) => {
                "Failed to create instance of plugin "@ + n@ + ": not in list of scanned plugins"@
            },
            NewPluginInstanceError::FormatNotFound(n, p) => {
                "Failed to create instance of plugin "@ + n@ + ": the format "@ + p.debug_form()
                    + " not found for this plugin"@
            },
        }
    }

    /// The message of an error, for a person to read.
    pub fn message(&self) -> (msg: String)
        ensures
            msg@ == self.message_text(),
    {
        match self {
            NewPluginInstanceError::FactoryFailedToCreateNewInstance(n, e) => {
                let mut msg = joined("Failed to create instance of plugin ", n.as_str());
                msg.append(": plugin factory failed to create new instance: ");
                msg.append(e.as_str());
                msg
            },
            NewPluginInstanceError::PluginFailedToInit(n, e) => {
                let mut msg = joined("Failed to create instance of plugin ", n.as_str());
                msg.append(": plugin instance failed to initialize: ");
                msg.append(e.as_str());
                msg
            },
            NewPluginInstanceError::NotFound(n) => {
                let mut msg = joined("Failed to create instance of plugin ", n.as_str());
                msg.append(": not in list of scanned plugins");
                msg
            },
            NewPluginInstanceError::FormatNotFound(n, p) => {
                let mut msg = joined("Failed to create instance of plugin ", n.as_str());
                msg.append(": the format ");
                msg.append(p.debug_name().as_str());
                msg.append(" not found for this plugin");
                msg
            },
        }
    }
}

/// The kind of instance that a plug-in of a format is.
pub open spec fn instance_type_of(format: PluginFormat) -> PluginInstanceType {
    match format {
        PluginFormat::Internal => PluginInstanceType::Internal,
        PluginFormat::Clap => PluginInstanceType::Clap,
    }
}

fn instance_type(format: PluginFormat) -> (t: PluginInstanceType)
    ensures
        t == instance_type_of(format),
{
    match format {
        PluginFormat::Internal => PluginInstanceType::Internal,
        PluginFormat::Clap => PluginInstanceType::Clap,
    }
}

/// The names of a list of factories, in their order.
pub open spec fn names_of<F: PluginFactory>(factories: Seq<ScannedPluginFactory<F>>) -> Seq<Seq<char>> {
    Seq::new(factories.len(), |i: int| factories[i].rdn@)
}

/// The texts of a list, in their order.
pub open spec fn texts_of(list: Seq<String>) -> Seq<Seq<char>> {
    Seq::new(list.len(), |i: int| list[i]@)
}

/// The first of the two directories that are always scanned for CLAP plug-ins.
pub open spec fn default_clap_directory_0() -> Seq<char> {
    "/usr/lib/clap"@
}

/// The second of the two directories that are always scanned for CLAP plug-ins.
pub open spec fn default_clap_directory_1() -> Seq<char> {
    "/usr/local/lib/clap"@
}

/// The directory is one of those that are always scanned.
pub open spec fn is_default_directory(path: Seq<char>) -> bool {
    path == default_clap_directory_0() || path == default_clap_directory_1()
}

/// The directories that a scan looks into: the two that are always scanned,
/// then `.clap` below the user's home where the home is known, then those
/// that were added.
pub open spec fn scan_directories_of(home: Option<Seq<char>>, added: Seq<Seq<char>>) -> Seq<Seq<char>> {
    seq![default_clap_directory_0(), default_clap_directory_1()] + (match home {
        Some(h) => seq![h + "/.clap"@],
        None => Seq::empty(),
    }) + added
}

fn find_text(list: &Vec<String>, text: &String) -> (at: Option<usize>)
    ensures
        match at {
            Some(i) => i < list@.len() && list@[i as int]@ == text@ && forall|j: int|
                0 <= j < i ==> list@[j]@ != text@,
            None => !texts_of(list@).contains(text@),
        },
{
    let mut i: usize = 0;
    while i < list.len()
        invariant
            i <= list@.len(),
            forall|j: int| 0 <= j < i ==> list@[j]@ != text@,
        decreases list@.len() - i,
    {
        if list[i] == *text {
            return Some(i);
        }
        i = i + 1;
    }
    None
}

fn find_factory<F: PluginFactory>(factories: &Vec<ScannedPluginFactory<F>>, rdn: &String) -> (at: Option<
    usize,
>)
    ensures
        match at {
            Some(i) => i < factories@.len() && factories@[i as int].rdn@ == rdn@ && forall|j: int|
                0 <= j < i ==> factories@[j].rdn@ != rdn@,
            None => !names_of(factories@).contains(rdn@),
        },
{
    let mut i: usize = 0;
    while i < factories.len()
        invariant
            i <= factories@.len(),
            forall|j: int| 0 <= j < i ==> factories@[j].rdn@ != rdn@,
        decreases factories@.len() - i,
    {
        if factories[i].rdn == *rdn {
            return Some(i);
        }
        i = i + 1;
    }
    None
}

/// The scanner: the factories of the plug-ins that are built in, those of
/// the plug-ins that a scan has found, and the directories that were added
/// to those that are always scanned.
pub struct PluginScanner<F: PluginFactory> {
    scanned_internal_plugins: Vec<ScannedPluginFactory<F>>,
    scanned_external_plugins: Vec<ScannedPluginFactory<F>>,
    clap_scan_directories: Vec<String>,
}

/// What making an instance has come to.
pub struct CreatePluginResult<M: PluginMainThread> {
    pub plugin_host: PluginInstanceHost<M>,
    pub status: Result<(), NewPluginInstanceError>,
    pub save_state: PluginSaveState,
}

/// Where an instance of a plug-in is looked for.
pub enum Lookup {
    /// Among the plug-ins that are built in.
    Internal,
    /// Among the plug-ins that a scan has found.
    External,
    /// Nowhere: the plug-in is not known in a format that may be used.
    Missing(PluginFormat),
}

/// Where an instance is looked for: a plug-in that is built in is taken
/// where the saved state names one or allows another format; else one that
/// was scanned is taken where the saved state names one or allows another
/// format; else the format that was tried last is missing.
pub open spec fn lookup(
    format: PluginFormat,
    fallback: bool,
    is_internal: bool,
    is_external: bool,
) -> Lookup {
    if (format == PluginFormat::Internal || fallback) && is_internal {
        Lookup::Internal
    } else if (format == PluginFormat::Clap || fallback) && is_external {
        Lookup::External
    } else if format == PluginFormat::Clap || fallback {
        Lookup::Missing(PluginFormat::Clap)
    } else {
        Lookup::Missing(PluginFormat::Internal)
    }
}

impl<F: PluginFactory> PluginScanner<F> {
    /// The names of the plug-ins that are built in.
    pub closed spec fn internal_names(&self) -> Seq<Seq<char>> {
        names_of(self.scanned_internal_plugins@)
    }

    /// The names of the plug-ins that a scan has found.
    pub closed spec fn external_names(&self) -> Seq<Seq<char>> {
        names_of(self.scanned_external_plugins@)
    }

    /// The directories that were added.
    pub closed spec fn added_directories(&self) -> Seq<Seq<char>> {
        texts_of(self.clap_scan_directories@)
    }

    /// No name and no directory is listed twice.
    pub closed spec fn wf(&self) -> bool {
        &&& names_of(self.scanned_internal_plugins@).no_duplicates()
        &&& names_of(self.scanned_external_plugins@).no_duplicates()
        &&& texts_of(self.clap_scan_directories@).no_duplicates()
    }

    /// A scanner that knows no plug-in and no directory of its own.
    pub fn new() -> (s: Self)
        ensures
            s.wf(),
            s.internal_names() == Seq::<Seq<char>>::empty(),
            s.external_names() == Seq::<Seq<char>>::empty(),
            s.added_directories() == Seq::<Seq<char>>::empty(),
    {
        let s = PluginScanner {
            scanned_internal_plugins: Vec::new(),
            scanned_external_plugins: Vec::new(),
            clap_scan_directories: Vec::new(),
        };
        assert(s.internal_names() =~= Seq::<Seq<char>>::empty());
        assert(s.external_names() =~= Seq::<Seq<char>>::empty());
        assert(s.added_directories() =~= Seq::<Seq<char>>::empty());
        s
    }

    /// Adds a directory to those that are scanned for CLAP plug-ins, and
    /// says whether it was added. A directory that is always scanned, one
    /// that was added before, and one that does not exist are not added.
    /// `directory_exists` says whether the directory could be read.
    pub fn add_clap_scan_directory(&mut self, path: String, directory_exists: bool) -> (added: bool)
        requires
            old(self).wf(),
        ensures
            final(self).wf(),
            final(self).internal_names() == old(self).internal_names(),
            final(self).external_names() == old(self).external_names(),
            added == (!is_default_directory(path@) && !old(self).added_directories().contains(path@)
                && directory_exists),
            final(self).added_directories() == (if added {
                old(self).added_directories().push(path@)
            } else {
                old(self).added_directories()
            }),
    {
        if path == String::from_str("/usr/lib/clap") || path == String::from_str(
            "/usr/local/lib/clap",
        ) {
            return false;
        }
        match find_text(&self.clap_scan_directories, &path) {
            Some(i) => {
                assert(texts_of(self.clap_scan_directories@)[i as int] == path@);
                false
            },
            None => {
                if directory_exists {
                    let ghost before = texts_of(self.clap_scan_directories@);
                    self.clap_scan_directories.push(path);
                    assert(texts_of(self.clap_scan_directories@) =~= before.push(path@));
                    true
                } else {
                    false
                }
            },
        }
    }

    /// Takes a directory away from those that were added, and says whether
    /// it was among them.
    pub fn remove_clap_scan_directory(&mut self, path: String) -> (removed: bool)
        requires
            old(self).wf(),
        ensures
            final(self).wf(),
            final(self).internal_names() == old(self).internal_names(),
            final(self).external_names() == old(self).external_names(),
            removed == old(self).added_directories().contains(path@),
            !final(self).added_directories().contains(path@),
            forall|p: Seq<char>|
                p != path@ ==> (final(self).added_directories().contains(p) <==> old(
                    self,
                ).added_directories().contains(p)),
    {
        match find_text(&self.clap_scan_directories, &path) {
            Some(i) => {
                let ghost before = texts_of(self.clap_scan_directories@);
                assert(before[i as int] == path@);
                let _ = self.clap_scan_directories.remove(i);
                proof {
                    let after = texts_of(self.clap_scan_directories@);
                    assert(after =~= before.remove(i as int));
                    assert forall|p: Seq<char>| p != path@ implies (after.contains(p)
                        <==> before.contains(p)) by {
                        if before.contains(p) {
                            let j = choose|j: int| 0 <= j < before.len() && before[j] == p;
                            if j < i {
                                assert(after[j] == p);
                            } else {
                                assert(after[j - 1] == p);
                            }
                        }
                        if after.contains(p) {
                            let j = choose|j: int| 0 <= j < after.len() && after[j] == p;
                            if j < i {
                                assert(before[j] == p);
                            } else {
                                assert(before[j + 1] == p);
                            }
                        }
                    }
                    if after.contains(path@) {
                        let j = choose|j: int| 0 <= j < after.len() && after[j] == path@;
                        if j < i {
                            assert(before[j] == path@);
                        } else {
                            assert(before[j + 1] == path@);
                        }
                    }
                    assert forall|a: int, b: int| 0 <= a < b < after.len() implies after[a]
                        != after[b] by {
                        let a0 = if a < i { a } else { a + 1 };
                        let b0 = if b < i { b } else { b + 1 };
                        assert(before[a0] == after[a] && before[b0] == after[b]);
                    }
                }
                true
            },
            None => false,
        }
    }

    /// The directories that a scan looks into.
    pub fn scan_directories(&self, home: Option<String>) -> (dirs: Vec<String>)
        ensures
            texts_of(dirs@) == scan_directories_of(text_of(home), self.added_directories()),
    {
        let mut dirs: Vec<String> = Vec::new();
        dirs.push(String::from_str("/usr/lib/clap"));
        dirs.push(String::from_str("/usr/local/lib/clap"));
        match home {
            Some(h) => {
                let mut local = h;
                local.append("/.clap");
                dirs.push(local);
            },
            None => {},
        }
        let ghost head = texts_of(dirs@);
        let mut i: usize = 0;
        assert(texts_of(dirs@) =~= head + texts_of(self.clap_scan_directories@).take(0));
        assert(head =~= seq![default_clap_directory_0(), default_clap_directory_1()] + (match text_of(
            home,
        ) {
            Some(h) => seq![h + "/.clap"@],
            None => Seq::empty(),
        }));
        while i < self.clap_scan_directories.len()
            invariant
                i <= self.clap_scan_directories@.len(),
                texts_of(dirs@) == head + texts_of(self.clap_scan_directories@).take(i as int),
            decreases self.clap_scan_directories@.len() - i,
        {
            let ghost before = dirs@;
            let ghost added = texts_of(self.clap_scan_directories@);
            dirs.push(self.clap_scan_directories[i].clone());
            proof {
                assert(texts_of(dirs@) =~= texts_of(before).push(added[i as int]));
                assert(added.take(i as int + 1) =~= added.take(i as int).push(added[i as int]));
                assert((head + added.take(i as int)).push(added[i as int]) =~= head + added.take(
                    i as int + 1,
                ));
            }
            i = i + 1;
        }
        assert(texts_of(self.clap_scan_directories@).take(self.clap_scan_directories@.len() as int)
            =~= texts_of(self.clap_scan_directories@));
        dirs
    }

    /// Makes a plug-in that is built in known to the scanner, under the name
    /// that the plug-in gives itself. A plug-in that was known under that
    /// name gives way.
    pub fn scan_internal_plugin(&mut self, factory: F) -> (res: Result<ScannedPluginKey, String>)
        requires
            old(self).wf(),
        ensures
            final(self).wf(),
            final(self).external_names() == old(self).external_names(),
            final(self).added_directories() == old(self).added_directories(),
            res matches Ok(key) && key.format == PluginFormat::Internal
                && final(self).internal_names().contains(key.rdn@),
            forall|n: Seq<char>|
                old(self).internal_names().contains(n)
                    ==> #[trigger] final(self).internal_names().contains(n),
            forall|n: Seq<char>| #[trigger]
                final(self).internal_names().contains(n) ==> old(self).internal_names().contains(n)
                    || n == res->Ok_0.rdn@,
    {
        let description = factory.description();
        let key = ScannedPluginKey { rdn: description.id.clone(), format: PluginFormat::Internal };
        let scanned = ScannedPluginFactory {
            factory,
            description,
            rdn: key.rdn.clone(),
            format: PluginFormat::Internal,
        };
        let ghost before = names_of(self.scanned_internal_plugins@);
        let known: bool = put_factory(&mut self.scanned_internal_plugins, scanned);
        proof {
            if !known {
                crate::reducing_queue::lemma_push_fresh_any(before, key.rdn@);
            }
        }
        Ok(key)
    }

    /// Takes over what a walk through the scan directories has found: for
    /// each binary, in the order of the walk, the factories that it holds
    /// with the version of the format that each was built for, or the reason
    /// why it could not be read.
    ///
    /// The plug-ins that were known from an earlier scan are forgotten. Of
    /// several plug-ins with one name the first is listed and the last is
    /// the one that instances are made of. The plug-ins are listed in the
    /// order in which their names stand in the registry.
    pub fn rescan_plugin_directories(&mut self, found: Vec<ScannedBinary<F>>) -> (res:
        RescanPluginDirectoriesRes)
        requires
            old(self).wf(),
        ensures
            final(self).wf(),
            final(self).internal_names() == old(self).internal_names(),
            final(self).added_directories() == old(self).added_directories(),
            scanned_names(res.scanned_plugins@).no_duplicates(),
            same_names(scanned_names(res.scanned_plugins@), final(self).external_names()),
            scanned_names(res.scanned_plugins@) == final(self).external_names(),
            all_clap(res.scanned_plugins@),
            failed_paths(res.failed_plugins@) == unreadable_paths(found@),
    {
        self.scanned_external_plugins.clear();
        let mut scanned_plugins: Vec<ScannedPlugin> = Vec::new();
        let mut failed_plugins: Vec<(String, String)> = Vec::new();
        let mut found = found;
        let ghost all = found@;
        let ghost mut taken: int = 0;
        assert(names_of(self.scanned_external_plugins@) =~= Seq::<Seq<char>>::empty());
        assert(scanned_names(scanned_plugins@) =~= Seq::<Seq<char>>::empty());
        assert(failed_paths(failed_plugins@) =~= unreadable_paths(all.take(0)));
        while found.len() > 0
            invariant
                names_of(self.scanned_internal_plugins@) == names_of(
                    old(self).scanned_internal_plugins@,
                ),
                texts_of(self.clap_scan_directories@) == texts_of(old(self).clap_scan_directories@),
                self.wf(),
                0 <= taken,
                taken + found@.len() == all.len(),
                found@ =~= all.subrange(taken, all.len() as int),
                scanned_names(scanned_plugins@).no_duplicates(),
                same_names(scanned_names(scanned_plugins@), names_of(self.scanned_external_plugins@)),
                scanned_names(scanned_plugins@) == names_of(self.scanned_external_plugins@),
                all_clap(scanned_plugins@),
                failed_paths(failed_plugins@) == unreadable_paths(all.take(taken)),
            decreases found@.len(),
        {
            let binary = found.remove(0);
            proof {
                assert(binary == all[taken]);
                assert(all.take(taken + 1).drop_last() =~= all.take(taken));
            }
            match binary {
                ScannedBinary::Factories(factories) => {
                    self.take_factories(factories, &mut scanned_plugins);
                },
                ScannedBinary::Unreadable(path, reason) => {
                    let ghost before = failed_plugins@;
                    failed_plugins.push((path, reason));
                    assert(failed_paths(failed_plugins@) =~= failed_paths(before).push(path@));
                },
            }
            proof {
                taken = taken + 1;
            }
        }
        assert(all.take(all.len() as int) =~= all);
        RescanPluginDirectoriesRes { scanned_plugins, failed_plugins }
    }

    /// Takes over the factories of one binary: each factory is asked what it
    /// says of itself and is put into the registry of scanned plug-ins under
    /// the name that it has given, as a CLAP plug-in; a plug-in whose name is
    /// new to the registry is listed, with the version of the format that its
    /// factory was built for.
    fn take_factories(&mut self, factories: Vec<(F, ClapVersion)>, scanned_plugins: &mut Vec<ScannedPlugin>)
        requires
            old(self).wf(),
            scanned_names(old(scanned_plugins)@).no_duplicates(),
            same_names(
                scanned_names(old(scanned_plugins)@),
                names_of(old(self).scanned_external_plugins@),
            ),
            all_clap(old(scanned_plugins)@),
        ensures
            final(self).wf(),
            names_of(final(self).scanned_internal_plugins@) == names_of(
                old(self).scanned_internal_plugins@,
            ),
            texts_of(final(self).clap_scan_directories@) == texts_of(old(self).clap_scan_directories@),
            scanned_names(final(scanned_plugins)@).no_duplicates(),
            same_names(
                scanned_names(final(scanned_plugins)@),
                names_of(final(self).scanned_external_plugins@),
            ),
            all_clap(final(scanned_plugins)@),
            exists|made: Seq<ScannedPluginFactory<F>>| #[trigger]
                factories_taken(
                    old(self).scanned_external_plugins@,
                    final(self).scanned_external_plugins@,
                    old(scanned_plugins)@,
                    final(scanned_plugins)@,
                    factories@,
                    made,
                ),
            scanned_names(old(scanned_plugins)@) == names_of(old(self).scanned_external_plugins@)
                ==> scanned_names(final(scanned_plugins)@) == names_of(
                final(self).scanned_external_plugins@,
            ),
    {
        let mut factories = factories;
        let ghost all = factories@;
        let ghost vers = versions_of(all);
        let ghost reg0 = self.scanned_external_plugins@;
        let ghost names0 = names_of(reg0);
        let ghost listed0 = scanned_plugins@;
        let ghost mut made: Seq<ScannedPluginFactory<F>> = Seq::empty();
        proof {
            assert(names_of(made) =~= Seq::<Seq<char>>::empty());
            assert(vers.take(0) =~= Seq::<ClapVersion>::empty());
            assert(scanned_plugins@.take(listed0.len() as int) =~= listed0);
            assert(all.subrange(0, all.len() as int) =~= all);
        }
        while factories.len() > 0
            invariant
                names_of(self.scanned_internal_plugins@) == names_of(
                    old(self).scanned_internal_plugins@,
                ),
                texts_of(self.clap_scan_directories@) == texts_of(old(self).clap_scan_directories@),
                self.wf(),
                scanned_names(scanned_plugins@).no_duplicates(),
                same_names(scanned_names(scanned_plugins@), names_of(self.scanned_external_plugins@)),
                all_clap(scanned_plugins@),
                vers == versions_of(all),
                reg0 == old(self).scanned_external_plugins@,
                names0 == names_of(reg0),
                listed0 == old(scanned_plugins)@,
                made.len() + factories@.len() == all.len(),
                factories@ =~= all.subrange(made.len() as int, all.len() as int),
                forall|i: int|
                    0 <= i < made.len() ==> (#[trigger] made[i]).factory == all[i].0
                        && made[i].format == PluginFormat::Clap && made[i].rdn@
                        == made[i].description.id@,
                names_of(self.scanned_external_plugins@) == registered(names0, names_of(made)),
                forall|j: int|
                    0 <= j < self.scanned_external_plugins@.len() ==> if last_place(
                        names_of(made),
                        (#[trigger] self.scanned_external_plugins@[j]).rdn@,
                    ) >= 0 {
                        self.scanned_external_plugins@[j] == made[last_place(
                            names_of(made),
                            self.scanned_external_plugins@[j].rdn@,
                        )]
                    } else {
                        j < reg0.len() && self.scanned_external_plugins@[j] == reg0[j]
                    },
                newly_registered_versions(
                    names0,
                    names_of(made),
                    vers.take(made.len() as int),
                ).len() == newly_registered(names0, names_of(made)).len(),
                scanned_plugins@.len() == listed0.len() + newly_registered(
                    names0,
                    names_of(made),
                ).len(),
                scanned_plugins@.take(listed0.len() as int) == listed0,
                forall|k: int|
                    0 <= k < newly_registered(names0, names_of(made)).len()
                        ==> scanned_plugins@[listed0.len() + k].key.rdn@
                        == #[trigger] newly_registered(names0, names_of(made))[k] && (
                    scanned_plugins@[listed0.len() + k].format_version matches Some(t) && t@
                        == newly_registered_versions(
                        names0,
                        names_of(made),
                        vers.take(made.len() as int),
                    )[k].text_spec()),
            decreases factories@.len(),
        {
            let ghost done = made.len() as int;
            let ghost ids = names_of(made);
            let ghost reg = self.scanned_external_plugins@;
            let ghost listed = scanned_plugins@;
            let (f, v) = factories.remove(0);
            assert(f == all[done].0 && v == all[done].1);
            let description = f.description();
            let id: String = description.id.clone();
            let key = ScannedPluginKey { rdn: id.clone(), format: PluginFormat::Clap };
            let ghost names_before = names_of(self.scanned_external_plugins@);
            let ghost listed_before = scanned_names(scanned_plugins@);
            let entry = ScannedPluginFactory {
                description: description.clone(),
                rdn: id,
                format: PluginFormat::Clap,
                factory: f,
            };
            let ghost e = entry;
            let known: bool = put_factory(&mut self.scanned_external_plugins, entry);
            proof {
                made = made.push(e);
                let ids1 = names_of(made);
                assert(ids1 =~= ids.push(e.rdn@));
                assert(ids1.drop_last() =~= ids);
                assert(ids1.last() == e.rdn@);
                assert(vers.take(done + 1).drop_last() =~= vers.take(done));
                assert(vers.take(done + 1).last() == v);
                assert(factories@ =~= all.subrange(done + 1, all.len() as int));
                assert forall|j: int| 0 <= j < self.scanned_external_plugins@.len() implies if last_place(
                    ids1,
                    (#[trigger] self.scanned_external_plugins@[j]).rdn@,
                ) >= 0 {
                    self.scanned_external_plugins@[j] == made[last_place(
                        ids1,
                        self.scanned_external_plugins@[j].rdn@,
                    )]
                } else {
                    j < reg0.len() && self.scanned_external_plugins@[j] == reg0[j]
                } by {
                    let now = self.scanned_external_plugins@[j];
                    if now.rdn@ == e.rdn@ {
                        assert(now == e);
                    } else {
                        lemma_last_place(ids, now.rdn@);
                        if j < reg.len() {
                            assert(names_before[j] == names_of(self.scanned_external_plugins@)[j]);
                            assert(reg[j].rdn@ == now.rdn@);
                            assert(now == reg[j]);
                        } else {
                            let names_now = names_of(self.scanned_external_plugins@);
                            assert(names_before.len() == reg.len());
                            assert(names_now[j] == now.rdn@);
                            if known {
                                assert(names_now == names_before);
                            } else {
                                assert(names_now == names_before.push(e.rdn@));
                                assert(names_now.len() == self.scanned_external_plugins@.len());
                                assert(j == names_before.len());
                                assert(names_before.push(e.rdn@)[j] == e.rdn@);
                            }
                        }
                    }
                }
            }
            if !known {
                scanned_plugins.push(
                    ScannedPlugin {
                        description,
                        format: PluginFormat::Clap,
                        format_version: Some(v.text()),
                        key,
                    },
                );
                proof {
                    let listed_names = scanned_names(scanned_plugins@);
                    assert(listed_names =~= listed_before.push(key.rdn@));
                    assert(!listed_before.contains(key.rdn@));
                    crate::reducing_queue::lemma_push_fresh_any(listed_before, key.rdn@);
                    crate::reducing_queue::lemma_push_fresh_any(names_before, key.rdn@);
                    let names = names_of(self.scanned_external_plugins@);
                    assert(names == names_before.push(key.rdn@));
                    assert forall|n: Seq<char>| listed_names.contains(n) <==> names.contains(n) by {
                        assert(listed_before.contains(n) <==> names_before.contains(n));
                    }
                    assert(scanned_plugins@.take(listed0.len() as int) =~= listed.take(
                        listed0.len() as int,
                    ));
                }
            } else {
                proof {
                    let names = names_of(self.scanned_external_plugins@);
                    let listed_names = scanned_names(scanned_plugins@);
                    assert(names == names_before);
                    assert forall|n: Seq<char>| listed_names.contains(n) <==> names.contains(n) by {
                        assert(listed_before.contains(n) <==> names_before.contains(n));
                    }
                }
            }
        }
        proof {
            assert(vers.take(all.len() as int) =~= vers);
            assert(factories_taken(
                reg0,
                self.scanned_external_plugins@,
                listed0,
                scanned_plugins@,
                all,
                made,
            ));
            if scanned_names(listed0) == names0 {
                let new_names = newly_registered(names0, names_of(made));
                lemma_registered_appends(names0, names_of(made));
                assert(scanned_names(scanned_plugins@) =~= scanned_names(listed0) + new_names) by {
                    assert forall|i: int| 0 <= i < listed0.len() implies scanned_plugins@[i]
                        == listed0[i] by {
                        assert(scanned_plugins@.take(listed0.len() as int)[i] == scanned_plugins@[i]);
                    }
                }
            }
        }
    }

    /// Makes an instance of the plug-in that a saved state names, at a node
    /// of the graph.
    ///
    /// A plug-in that is built in is taken where the saved state names one
    /// or another format is allowed; else one that a scan has found, on the
    /// same condition. Where there is neither, the instance is made without
    /// a plug-in behind it and the status says which format was missing.
    /// Where there is one, its factory is asked for an instance, what the
    /// plug-in asks of the host meanwhile is dropped, and the instance is
    /// handed what the saved state holds of it; a failure of either leaves
    /// the instance without a plug-in behind it, with the reason as the
    /// status. The saved state comes back with the format that was taken.
    pub fn create_plugin(
        &mut self,
        save_state: PluginSaveState,
        node_index: u64,
        fallback_to_other_formats: bool,
    ) -> (res: CreatePluginResult<F::MainThread>)
        requires
            old(self).wf(),
        ensures
            final(self).wf(),
            final(self).internal_names() == old(self).internal_names(),
            final(self).external_names() == old(self).external_names(),
            final(self).added_directories() == old(self).added_directories(),
            res.plugin_host.wf(),
            ({
                let found = lookup(
                    save_state.key.format,
                    fallback_to_other_formats,
                    old(self).internal_names().contains(save_state.key.rdn@),
                    old(self).external_names().contains(save_state.key.rdn@),
                );
                let format = match found {
                    Lookup::Internal => PluginFormat::Internal,
                    Lookup::External => PluginFormat::Clap,
                    Lookup::Missing(_) => save_state.key.format,
                };
                &&& res.save_state@ == (PluginSaveStateView {
                    key: (save_state.key.rdn@, format),
                    ..save_state@
                })
                &&& res.plugin_host@ == new_host(
                    PluginInstanceID {
                        node_ref: node_index,
                        format: match found {
                            Lookup::Missing(_) => PluginInstanceType::Unloaded,
                            _ => instance_type_of(format),
                        },
                    },
                    res.status is Ok,
                    res.save_state@,
                    None,
                    crate::main_thread::backup_in_channels(save_state.backup_audio_ports),
                    crate::main_thread::backup_out_channels(save_state.backup_audio_ports),
                )
                &&& match found {
                    Lookup::Missing(missing) => res.status matches Err(
                        NewPluginInstanceError::FormatNotFound(n, f),
                    ) && n@ == save_state.key.rdn@ && f == missing,
                    _ => match res.status {
                        Ok(_) => true,
                        Err(NewPluginInstanceError::FactoryFailedToCreateNewInstance(n, _)) => n@
                            == save_state.key.rdn@,
                        Err(NewPluginInstanceError::PluginFailedToInit(n, _)) => n@
                            == save_state.key.rdn@,
                        Err(_) => false,
                    },
                }
            }),
    {
        let mut save_state = save_state;
        let rdn: String = save_state.key.rdn.clone();
        let format: PluginFormat = save_state.key.format;
        let ghost first_names = names_of(self.scanned_internal_plugins@);
        let ghost second_names = names_of(self.scanned_external_plugins@);
        let mut status: Result<(), NewPluginInstanceError> = Ok(());
        let mut taken: Option<PluginFormat> = None;
        let mut main_thread: Option<F::MainThread> = None;
        if format == PluginFormat::Internal || fallback_to_other_formats {
            match find_factory(&self.scanned_internal_plugins, &rdn) {
                Some(i) => {
                    assert(names_of(self.scanned_internal_plugins@)[i as int] == rdn@);
                    taken = Some(PluginFormat::Internal);
                    let (plugin, made) = instantiate(
                        &mut self.scanned_internal_plugins,
                        i,
                        &save_state,
                    );
                    main_thread = plugin;
                    status = made;
                },
                None => {
                    status = Err(
                        NewPluginInstanceError::FormatNotFound(rdn.clone(), PluginFormat::Internal),
                    );
                },
            }
        }
        if taken.is_none() && (format == PluginFormat::Clap || fallback_to_other_formats) {
            match find_factory(&self.scanned_external_plugins, &rdn) {
                Some(i) => {
                    assert(names_of(self.scanned_external_plugins@)[i as int] == rdn@);
                    taken = Some(PluginFormat::Clap);
                    let (plugin, made) = instantiate(
                        &mut self.scanned_external_plugins,
                        i,
                        &save_state,
                    );
                    main_thread = plugin;
                    status = made;
                },
                None => {
                    status = Err(
                        NewPluginInstanceError::FormatNotFound(rdn.clone(), PluginFormat::Clap),
                    );
                },
            }
        }
        let mut id = PluginInstanceID { node_ref: node_index, format: PluginInstanceType::Unloaded };
        match taken {
            Some(f) => {
                id.format = instance_type(f);
                if save_state.key.format != f {
                    save_state.key = ScannedPluginKey { rdn: rdn.clone(), format: f };
                }
            },
            None => {
                if status.is_ok() {
                    status = Err(NewPluginInstanceError::NotFound(rdn.clone()));
                }
            },
        }
        let plugin_host = PluginInstanceHost::adopt(id, save_state.clone(), main_thread);
        CreatePluginResult { plugin_host, status, save_state }
    }
}

/// The version of the CLAP format that a plug-in was built for.
#[derive(Debug, Clone, Copy, PartialEq, Eq, Structural)]
pub struct ClapVersion {
    pub major: u32,
    pub minor: u32,
    pub revision: u32,
}

impl ClapVersion {
    /// The three numbers with dots between them.
    pub open spec fn text_spec(&self) -> Seq<char> {
        decimal(self.major as nat) + "."@ + decimal(self.minor as nat) + "."@ + decimal(
            self.revision as nat,
        )
    }

    /// The three numbers with dots between them.
    pub fn text(&self) -> (t: String)
        ensures
            t@ == self.text_spec(),
    {
        let mut t = decimal_text(self.major as u64);
        t.append(".");
        t.append(decimal_text(self.minor as u64).as_str());
        t.append(".");
        t.append(decimal_text(self.revision as u64).as_str());
        t
    }
}

/// What a walk has found of one binary.
pub enum ScannedBinary<F: PluginFactory> {
    /// The factories that the binary holds, each with the version of the
    /// format that it was built for.
    Factories(Vec<(F, ClapVersion)>),
    /// The path of a binary that could not be read, and the reason.
    Unreadable(String, String),
}

/// Every plug-in of a list is a CLAP plug-in under the name that it gives
/// itself.
pub open spec fn all_clap(list: Seq<ScannedPlugin>) -> bool {
    forall|i: int|
        0 <= i < list.len() ==> (#[trigger] list[i]).format == PluginFormat::Clap
            && list[i].key.format == PluginFormat::Clap && list[i].key.rdn@
            == list[i].description.id@
}

/// Two lists hold the same names.
pub open spec fn same_names(a: Seq<Seq<char>>, b: Seq<Seq<char>>) -> bool {
    forall|n: Seq<char>| a.contains(n) <==> b.contains(n)
}

/// The names of a registry after plug-ins with the names of a list were put
/// into it, first to last: a name that is there stays where it is, and a new
/// name goes behind the others.
pub open spec fn registered(names: Seq<Seq<char>>, ids: Seq<Seq<char>>) -> Seq<Seq<char>>
    decreases ids.len(),
{
    if ids.len() == 0 {
        names
    } else {
        let before = registered(names, ids.drop_last());
        if before.contains(ids.last()) {
            before
        } else {
            before.push(ids.last())
        }
    }
}

/// The names of a list that are new to a registry when they are put into it,
/// first to last, each once.
pub open spec fn newly_registered(names: Seq<Seq<char>>, ids: Seq<Seq<char>>) -> Seq<Seq<char>>
    decreases ids.len(),
{
    if ids.len() == 0 {
        Seq::empty()
    } else {
        let new = newly_registered(names, ids.drop_last());
        if registered(names, ids.drop_last()).contains(ids.last()) {
            new
        } else {
            new.push(ids.last())
        }
    }
}

/// For each name that is new to a registry, the version that came with the
/// name when it came first.
pub open spec fn newly_registered_versions(
    names: Seq<Seq<char>>,
    ids: Seq<Seq<char>>,
    versions: Seq<ClapVersion>,
) -> Seq<ClapVersion>
    decreases ids.len(),
{
    if ids.len() == 0 || versions.len() != ids.len() {
        Seq::empty()
    } else {
        let new = newly_registered_versions(names, ids.drop_last(), versions.drop_last());
        if registered(names, ids.drop_last()).contains(ids.last()) {
            new
        } else {
            new.push(versions.last())
        }
    }
}

/// The last place at which a name stands in a list, or -1 where it stands
/// nowhere.
pub open spec fn last_place(ids: Seq<Seq<char>>, name: Seq<char>) -> int
    decreases ids.len(),
{
    if ids.len() == 0 {
        -1
    } else if ids.last() == name {
        ids.len() - 1
    } else {
        last_place(ids.drop_last(), name)
    }
}

/// The versions that came with the factories of a binary.
pub open spec fn versions_of<F: PluginFactory>(factories: Seq<(F, ClapVersion)>) -> Seq<ClapVersion> {
    Seq::new(factories.len(), |i: int| factories[i].1)
}

/// What taking over the factories of a binary comes to, where `made` are the
/// entries that were made of them: each holds its factory, as a CLAP
/// plug-in, under the name that the factory has given.
///
/// Each entry is put into the registry, first to last: under a name that is
/// there it takes the place of the entry that is there, and under a new name
/// it goes behind the others. So the entry under a name that a factory has
/// given is the one of the last factory that has given it, and every other
/// entry is as it was. Each name that is new to the registry is listed behind
/// what was listed, in the order in which the names came, with the version
/// that came with it first.
pub open spec fn factories_taken<F: PluginFactory>(
    before: Seq<ScannedPluginFactory<F>>,
    after: Seq<ScannedPluginFactory<F>>,
    listed_before: Seq<ScannedPlugin>,
    listed_after: Seq<ScannedPlugin>,
    factories: Seq<(F, ClapVersion)>,
    made: Seq<ScannedPluginFactory<F>>,
) -> bool {
    let ids = names_of(made);
    let new_names = newly_registered(names_of(before), ids);
    let new_versions = newly_registered_versions(names_of(before), ids, versions_of(factories));
    &&& made.len() == factories.len()
    &&& forall|i: int|
        0 <= i < made.len() ==> (#[trigger] made[i]).factory == factories[i].0 && made[i].format
            == PluginFormat::Clap && made[i].rdn@ == made[i].description.id@
    &&& names_of(after) == registered(names_of(before), ids)
    &&& forall|j: int|
        0 <= j < after.len() ==> if last_place(ids, (#[trigger] after[j]).rdn@) >= 0 {
            after[j] == made[last_place(ids, after[j].rdn@)]
        } else {
            j < before.len() && after[j] == before[j]
        }
    &&& new_versions.len() == new_names.len()
    &&& listed_after.len() == listed_before.len() + new_names.len()
    &&& listed_after.take(listed_before.len() as int) == listed_before
    &&& forall|k: int|
        0 <= k < new_names.len() ==> listed_after[listed_before.len() + k].key.rdn@
            == #[trigger] new_names[k] && (listed_after[listed_before.len()
            + k].format_version matches Some(t) && t@ == new_versions[k].text_spec())
}

/// The names of a registry after plug-ins were put into it are the names
/// that were there, and behind them the names that were new.
pub proof fn lemma_registered_appends(names: Seq<Seq<char>>, ids: Seq<Seq<char>>)
    ensures
        registered(names, ids) == names + newly_registered(names, ids),
    decreases ids.len(),
{
    if ids.len() == 0 {
        assert(names + newly_registered(names, ids) =~= names);
    } else {
        lemma_registered_appends(names, ids.drop_last());
        assert(registered(names, ids) =~= names + newly_registered(names, ids));
    }
}

/// A name has a last place in a list if and only if it stands in the list,
/// and it stands at its last place.
pub proof fn lemma_last_place(ids: Seq<Seq<char>>, name: Seq<char>)
    ensures
        -1 <= last_place(ids, name) < ids.len(),
        last_place(ids, name) >= 0 ==> ids[last_place(ids, name)] == name,
        last_place(ids, name) >= 0 <==> ids.contains(name),
    decreases ids.len(),
{
    if ids.len() > 0 {
        lemma_last_place(ids.drop_last(), name);
        if ids.last() == name {
            assert(ids[ids.len() - 1] == name);
        } else {
            if ids.contains(name) {
                let i = choose|i: int| 0 <= i < ids.len() && ids[i] == name;
                assert(ids.drop_last()[i] == name);
            }
            if ids.drop_last().contains(name) {
                let i = choose|i: int| 0 <= i < ids.drop_last().len() && ids.drop_last()[i] == name;
                assert(ids[i] == name);
            }
        }
    }
}

/// The names of the plug-ins of a list.
pub open spec fn scanned_names(list: Seq<ScannedPlugin>) -> Seq<Seq<char>> {
    Seq::new(list.len(), |i: int| list[i].key.rdn@)
}

/// The paths of a list of failures.
pub open spec fn failed_paths(list: Seq<(String, String)>) -> Seq<Seq<char>> {
    Seq::new(list.len(), |i: int| list[i].0@)
}

/// The paths of the binaries of a list that could not be read, in their order.
pub open spec fn unreadable_paths<F: PluginFactory>(found: Seq<ScannedBinary<F>>) -> Seq<Seq<char>>
    decreases found.len(),
{
    if found.len() == 0 {
        Seq::empty()
    } else {
        match found.last() {
            ScannedBinary::Unreadable(path, _) => unreadable_paths(found.drop_last()).push(path@),
            ScannedBinary::Factories(_) => unreadable_paths(found.drop_last()),
        }
    }
}

/// Puts a factory into a list under its name, in place of the one that is
/// there under that name if there is one, and says whether there was one.
fn put_factory<F: PluginFactory>(list: &mut Vec<ScannedPluginFactory<F>>, factory: ScannedPluginFactory<F>) -> (known:
    bool)
    requires
        names_of(old(list)@).no_duplicates(),
    ensures
        names_of(final(list)@).no_duplicates(),
        known == names_of(old(list)@).contains(factory.rdn@),
        names_of(final(list)@) == (if known {
            names_of(old(list)@)
        } else {
            names_of(old(list)@).push(factory.rdn@)
        }),
        forall|j: int|
            0 <= j < old(list)@.len() && (#[trigger] old(list)@[j]).rdn@ != factory.rdn@
                ==> final(list)@[j] == old(list)@[j],
        forall|j: int|
            0 <= j < final(list)@.len() && (#[trigger] final(list)@[j]).rdn@ == factory.rdn@
                ==> final(list)@[j] == factory,
{
    let ghost before = names_of(list@);
    match find_factory(list, &factory.rdn) {
        Some(i) => {
            assert(before[i as int] == factory.rdn@);
            list[i] = factory;
            assert(names_of(list@) =~= before);
            assert forall|j: int|
                0 <= j < list@.len() && (#[trigger] list@[j]).rdn@ == factory.rdn@ implies list@[j]
                == factory by {
                if j != i {
                    assert(before[j] == before[i as int]);
                }
            }
            true
        },
        None => {
            list.push(factory);
            assert(names_of(list@) =~= before.push(factory.rdn@));
            proof {
                crate::reducing_queue::lemma_push_fresh_any(before, factory.rdn@);
                assert forall|j: int|
                    0 <= j < list@.len() && (#[trigger] list@[j]).rdn@ == factory.rdn@ implies list@[j]
                    == factory by {
                    if j < before.len() {
                        assert(before[j] == factory.rdn@);
                    }
                }
            }
            false
        },
    }
}

/// Asks a factory for an instance, drops what the plug-in has asked of the
/// host meanwhile, and hands the instance what the saved state holds of it.
fn instantiate<F: PluginFactory>(
    list: &mut Vec<ScannedPluginFactory<F>>,
    i: usize,
    save_state: &PluginSaveState,
) -> (res: (Option<F::MainThread>, Result<(), NewPluginInstanceError>))
    requires
        i < old(list)@.len(),
    ensures
        names_of(final(list)@) == names_of(old(list)@),
        res.0 is Some == res.1 is Ok,
        match res.1 {
            Ok(_) => true,
            Err(NewPluginInstanceError::FactoryFailedToCreateNewInstance(n, _)) => n@ == old(
                list,
            )@[i as int].rdn@,
            Err(NewPluginInstanceError::PluginFailedToInit(n, _)) => n@ == old(list)@[i as int].rdn@,
            Err(_) => false,
        },
{
    let mut host_request = HostRequest::new();
    let ghost before = names_of(list@);
    let rdn: String = list[i].rdn.clone();
    let made = list[i].factory.new_instance(&mut host_request);
    assert(names_of(list@) =~= before);
    host_request.reset(RESTART);
    host_request.reset(PROCESS);
    host_request.reset(CALLBACK);
    match made {
        Ok(plugin) => {
            let mut plugin = plugin;
            let preset: Option<Vec<u8>> = match &save_state.preset {
                Some(p) => Some(p.bytes.clone()),
                None => None,
            };
            match plugin.init(preset) {
                Ok(_) => (Some(plugin), Ok(())),
                Err(e) => (None, Err(NewPluginInstanceError::PluginFailedToInit(rdn, e))),
            }
        },
        Err(e) => (None, Err(NewPluginInstanceError::FactoryFailedToCreateNewInstance(rdn, e))),
    }
}

} // verus!
