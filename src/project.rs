use crate::grammar::{entry_line, int_text, map_entries, map_text, quoted};
use crate::maps::{new_object_map, object_entries, object_map_insert, object_map_len};
use crate::ser::{lemma_map_entries_push, Serialize, Serializer};
use indexmap::IndexMap;
use vstd::prelude::*;

verus! {

/// The identifier of an object within one project: its position of insertion.
#[derive(Debug, Clone, Copy, PartialEq, Eq, Hash, Structural)]
pub struct PBXObjectID(usize);

impl PBXObjectID {
    pub closed spec fn index(&self) -> nat {
        self.0 as nat
    }

    /// The position at which the object was inserted.
    pub fn value(&self) -> (r: usize)
        ensures
            r as nat == self.index(),
    {
        self.0
    }
}

impl Serialize for PBXObjectID {
    open spec fn text(&self, depth: nat) -> Seq<char> {
        int_text(self.index() as int)
    }

    open spec fn height(&self) -> nat {
        0
    }

    fn serialize(&self, s: &mut Serializer) {
        s.serialize_newtype_struct("PBXObjectID", &self.0)
    }
}

/// The value of one build setting of a build file.
#[derive(Debug)]
pub enum PBXSetting {
    List(Vec<String>),
}

impl Serialize for PBXSetting {
    /// Written as its payload alone, with no variant name.
    open spec fn text(&self, depth: nat) -> Seq<char> {
        match self {
            PBXSetting::List(v) => v.text(depth),
        }
    }

    open spec fn height(&self) -> nat {
        1
    }

    fn serialize(&self, s: &mut Serializer) {
        match self {
            PBXSetting::List(v) => {
                proof {
                    crate::ser::lemma_max_height_bound(v@, 0);
                }
                v.serialize(s)
            },
        }
    }
}

/// Where a copy-files build phase puts its files.
#[derive(Debug, Clone, Copy, PartialEq, Eq, Hash, Structural)]
pub enum PBXDstSubfolderSpec {
    Wrapper,
    Executables,
    Resources,
    Frameworks,
    SharedFrameworks,
    SharedSupport,
    Plugins,
}

impl PBXDstSubfolderSpec {
    /// The fixed code that stands for the destination in the file format.
    pub open spec fn spec_code(&self) -> u32 {
        match self {
            PBXDstSubfolderSpec::Wrapper => 1,
            PBXDstSubfolderSpec::Executables => 6,
            PBXDstSubfolderSpec::Resources => 7,
            PBXDstSubfolderSpec::Frameworks => 10,
            PBXDstSubfolderSpec::SharedFrameworks => 11,
            PBXDstSubfolderSpec::SharedSupport => 12,
            PBXDstSubfolderSpec::Plugins => 13,
        }
    }

    pub fn code(&self) -> (r: u32)
        ensures
            r == self.spec_code(),
    {
        match self {
            PBXDstSubfolderSpec::Wrapper => 1,
            PBXDstSubfolderSpec::Executables => 6,
            PBXDstSubfolderSpec::Resources => 7,
            PBXDstSubfolderSpec::Frameworks => 10,
            PBXDstSubfolderSpec::SharedFrameworks => 11,
            PBXDstSubfolderSpec::SharedSupport => 12,
            PBXDstSubfolderSpec::Plugins => 13,
        }
    }
}

impl Serialize for PBXDstSubfolderSpec {
    /// Written as its code, never as its name.
    open spec fn text(&self, depth: nat) -> Seq<char> {
        int_text(self.spec_code() as int)
    }

    open spec fn height(&self) -> nat {
        0
    }

    fn serialize(&self, s: &mut Serializer) {
        s.serialize_u32(self.code())
    }
}

/// One object of a project, tagged by its kind.
#[derive(Debug)]
pub enum PBXObject {
    PBXFileReference { path: String, explicit_file_type: String, source_tree: String },
    PBXBuildFile { file_ref: PBXObjectID, settings: IndexMap<String, PBXSetting> },
    PBXProject { build_configuration_list: PBXObjectID, targets: Vec<PBXObjectID> },
    PBXNativeTarget {
        name: String,
        product_name: String,
        product_reference: PBXObjectID,
        product_type: String,
        build_configuration_list: PBXObjectID,
        build_phases: Vec<PBXObjectID>,
        build_rules: Vec<PBXObjectID>,
        dependencies: Vec<PBXObjectID>,
    },
    XCBuildConfiguration { name: String, build_settings: IndexMap<String, String> },
    XCConfigurationList { build_configurations: Vec<PBXObjectID> },
    PBXSourcesBuildPhase { files: Vec<PBXObjectID> },
    PBXFrameworksBuildPhase { files: Vec<PBXObjectID> },
    PBXShellScriptBuildPhase { shell_path: String, shell_script: String },
    PBXCopyFilesBuildPhase {
        files: Vec<PBXObjectID>,
        dst_path: String,
        dst_subfolder_spec: PBXDstSubfolderSpec,
    },
    PBXResourcesBuildPhase { files: Vec<PBXObjectID> },
}

/// The tag entry that opens every object: `isa`, then the kind's name.
pub open spec fn isa(kind: Seq<char>) -> (Seq<char>, Seq<char>) {
    ("isa"@, quoted(kind))
}

impl PBXObject {
    /// The entries of the object, in the order they are written: the tag, then the
    /// fields in their declared order under their external names, each value as
    /// written at `depth`.
    pub open spec fn fields(&self, depth: nat) -> Seq<(Seq<char>, Seq<char>)> {
        match self {
            PBXObject::PBXFileReference { path, explicit_file_type, source_tree } => seq![
                isa("PBXFileReference"@),
                ("path"@, path.text(depth)),
                ("explicitFileType"@, explicit_file_type.text(depth)),
                ("sourceTree"@, source_tree.text(depth)),
            ],
            PBXObject::PBXBuildFile { file_ref, settings } => seq![
                isa("PBXBuildFile"@),
                ("fileRef"@, file_ref.text(depth)),
                ("settings"@, settings.text(depth)),
            ],
            PBXObject::PBXProject { build_configuration_list, targets } => seq![
                isa("PBXProject"@),
                ("buildConfigurationList"@, build_configuration_list.text(depth)),
                ("targets"@, targets.text(depth)),
            ],
            PBXObject::PBXNativeTarget {
                name,
                product_name,
                product_reference,
                product_type,
                build_configuration_list,
                build_phases,
                build_rules,
                dependencies,
            } => seq![
                isa("PBXNativeTarget"@),
                ("name"@, name.text(depth)),
                ("productName"@, product_name.text(depth)),
                ("productReference"@, product_reference.text(depth)),
                ("productType"@, product_type.text(depth)),
                ("buildConfigurationList"@, build_configuration_list.text(depth)),
                ("buildPhases"@, build_phases.text(depth)),
                ("buildRules"@, build_rules.text(depth)),
                ("dependencies"@, dependencies.text(depth)),
            ],
            PBXObject::XCBuildConfiguration { name, build_settings } => seq![
                isa("XCBuildConfiguration"@),
                ("name"@, name.text(depth)),
                ("buildSettings"@, build_settings.text(depth)),
            ],
            PBXObject::XCConfigurationList { build_configurations } => seq![
                isa("XCConfigurationList"@),
                ("buildConfigurations"@, build_configurations.text(depth)),
            ],
            PBXObject::PBXSourcesBuildPhase { files } => seq![
                isa("PBXSourcesBuildPhase"@),
                ("files"@, files.text(depth)),
            ],
            PBXObject::PBXFrameworksBuildPhase { files } => seq![
                isa("PBXFrameworksBuildPhase"@),
                ("files"@, files.text(depth)),
            ],
            PBXObject::PBXShellScriptBuildPhase { shell_path, shell_script } => seq![
                isa("PBXShellScriptBuildPhase"@),
                ("shellPath"@, shell_path.text(depth)),
                ("shellScript"@, shell_script.text(depth)),
            ],
            PBXObject::PBXCopyFilesBuildPhase { files, dst_path, dst_subfolder_spec } => seq![
                isa("PBXCopyFilesBuildPhase"@),
                ("files"@, files.text(depth)),
                ("dstPath"@, dst_path.text(depth)),
                ("dstSubfolderSpec"@, dst_subfolder_spec.text(depth)),
            ],
            PBXObject::PBXResourcesBuildPhase { files } => seq![
                isa("PBXResourcesBuildPhase"@),
                ("files"@, files.text(depth)),
            ],
        }
    }
}

/// Writing the `k`-th entry of a record extends the entries written before it.
proof fn lemma_record_step(f: Seq<(Seq<char>, Seq<char>)>, k: int, depth: nat)
    requires
        0 < k <= f.len(),
    ensures
        map_entries(f.take(k), depth) == map_entries(f.take(k - 1), depth) + entry_line(
            f[k - 1].0,
            f[k - 1].1,
            depth,
        ),
        k == 1 ==> map_entries(f.take(k - 1), depth) == Seq::<char>::empty(),
        k == f.len() ==> f.take(k) == f,
{
    assert(f.take(k) =~= f.take(k - 1).push(f[k - 1]));
    lemma_map_entries_push(f.take(k - 1), f[k - 1], depth);
    assert(f.take(0) =~= Seq::<(Seq<char>, Seq<char>)>::empty());
    assert(f.take(f.len() as int) =~= f);
}

/// Each list of identifiers opens one level of indentation.
proof fn lemma_id_list_height(v: &Vec<PBXObjectID>)
    ensures
        v.height() <= 1,
{
    crate::ser::lemma_max_height_bound(v@, 0);
}

/// Each kind of object is written by a function of its own: a record whose first
/// entry is the tag, then the fields in their declared order.
impl PBXObject {
    fn serialize_pbx_file_reference(&self, s: &mut Serializer)
        requires
            self is PBXFileReference,
            old(s).depth() + 3 <= usize::MAX,
        ensures
            final(s).written() == old(s).written() + self.text(old(s).depth()),
            final(s).depth() == old(s).depth(),
    {
        let ghost d = s.depth();
        match self {
            PBXObject::PBXFileReference { path, explicit_file_type, source_tree } => {
                s.serialize_struct("PBXObject", 4);
                let ghost w0 = s.written();
                let ghost f = self.fields(d + 1);
                s.serialize_field("isa", &"PBXFileReference");
                proof {
                    lemma_record_step(f, 1, d + 1);
                }
                assert(s.written() =~= w0 + map_entries(f.take(1), d + 1));
                s.serialize_field("path", path);
                proof {
                    lemma_record_step(f, 2, d + 1);
                }
                assert(s.written() =~= w0 + map_entries(f.take(2), d + 1));
                s.serialize_field("explicitFileType", explicit_file_type);
                proof {
                    lemma_record_step(f, 3, d + 1);
                }
                assert(s.written() =~= w0 + map_entries(f.take(3), d + 1));
                s.serialize_field("sourceTree", source_tree);
                proof {
                    lemma_record_step(f, 4, d + 1);
                }
                assert(s.written() =~= w0 + map_entries(f.take(4), d + 1));
                s.end_map();
                assert(s.written() =~= old(s).written() + self.text(d));
            },
            _ => {},
        }
    }

    fn serialize_pbx_build_file(&self, s: &mut Serializer)
        requires
            self is PBXBuildFile,
            old(s).depth() + 3 <= usize::MAX,
        ensures
            final(s).written() == old(s).written() + self.text(old(s).depth()),
            final(s).depth() == old(s).depth(),
    {
        let ghost d = s.depth();
        match self {
            PBXObject::PBXBuildFile { file_ref, settings } => {
                s.serialize_struct("PBXObject", 3);
                let ghost w0 = s.written();
                let ghost f = self.fields(d + 1);
                s.serialize_field("isa", &"PBXBuildFile");
                proof {
                    lemma_record_step(f, 1, d + 1);
                }
                assert(s.written() =~= w0 + map_entries(f.take(1), d + 1));
                s.serialize_field("fileRef", file_ref);
                proof {
                    lemma_record_step(f, 2, d + 1);
                }
                assert(s.written() =~= w0 + map_entries(f.take(2), d + 1));
                s.serialize_field("settings", settings);
                proof {
                    lemma_record_step(f, 3, d + 1);
                }
                assert(s.written() =~= w0 + map_entries(f.take(3), d + 1));
                s.end_map();
                assert(s.written() =~= old(s).written() + self.text(d));
            },
            _ => {},
        }
    }

    fn serialize_pbx_project(&self, s: &mut Serializer)
        requires
            self is PBXProject,
            old(s).depth() + 3 <= usize::MAX,
        ensures
            final(s).written() == old(s).written() + self.text(old(s).depth()),
            final(s).depth() == old(s).depth(),
    {
        let ghost d = s.depth();
        match self {
            PBXObject::PBXProject { build_configuration_list, targets } => {
                proof {
                    lemma_id_list_height(targets);
                }
                s.serialize_struct("PBXObject", 3);
                let ghost w0 = s.written();
                let ghost f = self.fields(d + 1);
                s.serialize_field("isa", &"PBXProject");
                proof {
                    lemma_record_step(f, 1, d + 1);
                }
                assert(s.written() =~= w0 + map_entries(f.take(1), d + 1));
                s.serialize_field("buildConfigurationList", build_configuration_list);
                proof {
                    lemma_record_step(f, 2, d + 1);
                }
                assert(s.written() =~= w0 + map_entries(f.take(2), d + 1));
                s.serialize_field("targets", targets);
                proof {
                    lemma_record_step(f, 3, d + 1);
                }
                assert(s.written() =~= w0 + map_entries(f.take(3), d + 1));
                s.end_map();
                assert(s.written() =~= old(s).written() + self.text(d));
            },
            _ => {},
        }
    }

    #[verifier::rlimit(100)]
    fn serialize_pbx_native_target(&self, s: &mut Serializer)
        requires
            self is PBXNativeTarget,
            old(s).depth() + 3 <= usize::MAX,
        ensures
            final(s).written() == old(s).written() + self.text(old(s).depth()),
            final(s).depth() == old(s).depth(),
    {
        let ghost d = s.depth();
        match self {
            PBXObject::PBXNativeTarget {
                name,
                product_name,
                product_reference,
                product_type,
                build_configuration_list,
                build_phases,
                build_rules,
                dependencies,
            } => {
                proof {
                    lemma_id_list_height(build_phases);
                    lemma_id_list_height(build_rules);
                    lemma_id_list_height(dependencies);
                }
                s.serialize_struct("PBXObject", 9);
                let ghost w0 = s.written();
                let ghost f = self.fields(d + 1);
                s.serialize_field("isa", &"PBXNativeTarget");
                proof {
                    lemma_record_step(f, 1, d + 1);
                }
                assert(s.written() =~= w0 + map_entries(f.take(1), d + 1));
                s.serialize_field("name", name);
                proof {
                    lemma_record_step(f, 2, d + 1);
                }
                assert(s.written() =~= w0 + map_entries(f.take(2), d + 1));
                s.serialize_field("productName", product_name);
                proof {
                    lemma_record_step(f, 3, d + 1);
                }
                assert(s.written() =~= w0 + map_entries(f.take(3), d + 1));
                s.serialize_field("productReference", product_reference);
                proof {
                    lemma_record_step(f, 4, d + 1);
                }
                assert(s.written() =~= w0 + map_entries(f.take(4), d + 1));
                s.serialize_field("productType", product_type);
                proof {
                    lemma_record_step(f, 5, d + 1);
                }
                assert(s.written() =~= w0 + map_entries(f.take(5), d + 1));
                s.serialize_field("buildConfigurationList", build_configuration_list);
                proof {
                    lemma_record_step(f, 6, d + 1);
                }
                assert(s.written() =~= w0 + map_entries(f.take(6), d + 1));
                s.serialize_field("buildPhases", build_phases);
                proof {
                    lemma_record_step(f, 7, d + 1);
                }
                assert(s.written() =~= w0 + map_entries(f.take(7), d + 1));
                s.serialize_field("buildRules", build_rules);
                proof {
                    lemma_record_step(f, 8, d + 1);
                }
                assert(s.written() =~= w0 + map_entries(f.take(8), d + 1));
                s.serialize_field("dependencies", dependencies);
                proof {
                    lemma_record_step(f, 9, d + 1);
                }
                assert(s.written() =~= w0 + map_entries(f.take(9), d + 1));
                s.end_map();
                assert(s.written() =~= old(s).written() + self.text(d));
            },
            _ => {},
        }
    }

    fn serialize_xc_build_configuration(&self, s: &mut Serializer)
        requires
            self is XCBuildConfiguration,
            old(s).depth() + 3 <= usize::MAX,
        ensures
            final(s).written() == old(s).written() + self.text(old(s).depth()),
            final(s).depth() == old(s).depth(),
    {
        let ghost d = s.depth();
        match self {
            PBXObject::XCBuildConfiguration { name, build_settings } => {
                s.serialize_struct("PBXObject", 3);
                let ghost w0 = s.written();
                let ghost f = self.fields(d + 1);
                s.serialize_field("isa", &"XCBuildConfiguration");
                proof {
                    lemma_record_step(f, 1, d + 1);
                }
                assert(s.written() =~= w0 + map_entries(f.take(1), d + 1));
                s.serialize_field("name", name);
                proof {
                    lemma_record_step(f, 2, d + 1);
                }
                assert(s.written() =~= w0 + map_entries(f.take(2), d + 1));
                s.serialize_field("buildSettings", build_settings);
                proof {
                    lemma_record_step(f, 3, d + 1);
                }
                assert(s.written() =~= w0 + map_entries(f.take(3), d + 1));
                s.end_map();
                assert(s.written() =~= old(s).written() + self.text(d));
            },
            _ => {},
        }
    }

    fn serialize_xc_configuration_list(&self, s: &mut Serializer)
        requires
            self is XCConfigurationList,
            old(s).depth() + 3 <= usize::MAX,
        ensures
            final(s).written() == old(s).written() + self.text(old(s).depth()),
            final(s).depth() == old(s).depth(),
    {
        let ghost d = s.depth();
        match self {
            PBXObject::XCConfigurationList { build_configurations } => {
                proof {
                    lemma_id_list_height(build_configurations);
                }
                s.serialize_struct("PBXObject", 2);
                let ghost w0 = s.written();
                let ghost f = self.fields(d + 1);
                s.serialize_field("isa", &"XCConfigurationList");
                proof {
                    lemma_record_step(f, 1, d + 1);
                }
                assert(s.written() =~= w0 + map_entries(f.take(1), d + 1));
                s.serialize_field("buildConfigurations", build_configurations);
                proof {
                    lemma_record_step(f, 2, d + 1);
                }
                assert(s.written() =~= w0 + map_entries(f.take(2), d + 1));
                s.end_map();
                assert(s.written() =~= old(s).written() + self.text(d));
            },
            _ => {},
        }
    }

    fn serialize_pbx_sources_build_phase(&self, s: &mut Serializer)
        requires
            self is PBXSourcesBuildPhase,
            old(s).depth() + 3 <= usize::MAX,
        ensures
            final(s).written() == old(s).written() + self.text(old(s).depth()),
            final(s).depth() == old(s).depth(),
    {
        let ghost d = s.depth();
        match self {
            PBXObject::PBXSourcesBuildPhase { files } => {
                proof {
                    lemma_id_list_height(files);
                }
                s.serialize_struct("PBXObject", 2);
                let ghost w0 = s.written();
                let ghost f = self.fields(d + 1);
                s.serialize_field("isa", &"PBXSourcesBuildPhase");
                proof {
                    lemma_record_step(f, 1, d + 1);
                }
                assert(s.written() =~= w0 + map_entries(f.take(1), d + 1));
                s.serialize_field("files", files);
                proof {
                    lemma_record_step(f, 2, d + 1);
                }
                assert(s.written() =~= w0 + map_entries(f.take(2), d + 1));
                s.end_map();
                assert(s.written() =~= old(s).written() + self.text(d));
            },
            _ => {},
        }
    }

    fn serialize_pbx_frameworks_build_phase(&self, s: &mut Serializer)
        requires
            self is PBXFrameworksBuildPhase,
            old(s).depth() + 3 <= usize::MAX,
        ensures
            final(s).written() == old(s).written() + self.text(old(s).depth()),
            final(s).depth() == old(s).depth(),
    {
        let ghost d = s.depth();
        match self {
            PBXObject::PBXFrameworksBuildPhase { files } => {
                proof {
                    lemma_id_list_height(files);
                }
                s.serialize_struct("PBXObject", 2);
                let ghost w0 = s.written();
                let ghost f = self.fields(d + 1);
                s.serialize_field("isa", &"PBXFrameworksBuildPhase");
                proof {
                    lemma_record_step(f, 1, d + 1);
                }
                assert(s.written() =~= w0 + map_entries(f.take(1), d + 1));
                s.serialize_field("files", files);
                proof {
                    lemma_record_step(f, 2, d + 1);
                }
                assert(s.written() =~= w0 + map_entries(f.take(2), d + 1));
                s.end_map();
                assert(s.written() =~= old(s).written() + self.text(d));
            },
            _ => {},
        }
    }

    fn serialize_pbx_shell_script_build_phase(&self, s: &mut Serializer)
        requires
            self is PBXShellScriptBuildPhase,
            old(s).depth() + 3 <= usize::MAX,
        ensures
            final(s).written() == old(s).written() + self.text(old(s).depth()),
            final(s).depth() == old(s).depth(),
    {
        let ghost d = s.depth();
        match self {
            PBXObject::PBXShellScriptBuildPhase { shell_path, shell_script } => {
                s.serialize_struct("PBXObject", 3);
                let ghost w0 = s.written();
                let ghost f = self.fields(d + 1);
                s.serialize_field("isa", &"PBXShellScriptBuildPhase");
                proof {
                    lemma_record_step(f, 1, d + 1);
                }
                assert(s.written() =~= w0 + map_entries(f.take(1), d + 1));
                s.serialize_field("shellPath", shell_path);
                proof {
                    lemma_record_step(f, 2, d + 1);
                }
                assert(s.written() =~= w0 + map_entries(f.take(2), d + 1));
                s.serialize_field("shellScript", shell_script);
                proof {
                    lemma_record_step(f, 3, d + 1);
                }
                assert(s.written() =~= w0 + map_entries(f.take(3), d + 1));
                s.end_map();
                assert(s.written() =~= old(s).written() + self.text(d));
            },
            _ => {},
        }
    }

    fn serialize_pbx_copy_files_build_phase(&self, s: &mut Serializer)
        requires
            self is PBXCopyFilesBuildPhase,
            old(s).depth() + 3 <= usize::MAX,
        ensures
            final(s).written() == old(s).written() + self.text(old(s).depth()),
            final(s).depth() == old(s).depth(),
    {
        let ghost d = s.depth();
        match self {
            PBXObject::PBXCopyFilesBuildPhase { files, dst_path, dst_subfolder_spec } => {
                proof {
                    lemma_id_list_height(files);
                }
                s.serialize_struct("PBXObject", 4);
                let ghost w0 = s.written();
                let ghost f = self.fields(d + 1);
                s.serialize_field("isa", &"PBXCopyFilesBuildPhase");
                proof {
                    lemma_record_step(f, 1, d + 1);
                }
                assert(s.written() =~= w0 + map_entries(f.take(1), d + 1));
                s.serialize_field("files", files);
                proof {
                    lemma_record_step(f, 2, d + 1);
                }
                assert(s.written() =~= w0 + map_entries(f.take(2), d + 1));
                s.serialize_field("dstPath", dst_path);
                proof {
                    lemma_record_step(f, 3, d + 1);
                }
                assert(s.written() =~= w0 + map_entries(f.take(3), d + 1));
                s.serialize_field("dstSubfolderSpec", dst_subfolder_spec);
                proof {
                    lemma_record_step(f, 4, d + 1);
                }
                assert(s.written() =~= w0 + map_entries(f.take(4), d + 1));
                s.end_map();
                assert(s.written() =~= old(s).written() + self.text(d));
            },
            _ => {},
        }
    }

    fn serialize_pbx_resources_build_phase(&self, s: &mut Serializer)
        requires
            self is PBXResourcesBuildPhase,
            old(s).depth() + 3 <= usize::MAX,
        ensures
            final(s).written() == old(s).written() + self.text(old(s).depth()),
            final(s).depth() == old(s).depth(),
    {
        let ghost d = s.depth();
        match self {
            PBXObject::PBXResourcesBuildPhase { files } => {
                proof {
                    lemma_id_list_height(files);
                }
                s.serialize_struct("PBXObject", 2);
                let ghost w0 = s.written();
                let ghost f = self.fields(d + 1);
                s.serialize_field("isa", &"PBXResourcesBuildPhase");
                proof {
                    lemma_record_step(f, 1, d + 1);
                }
                assert(s.written() =~= w0 + map_entries(f.take(1), d + 1));
                s.serialize_field("files", files);
                proof {
                    lemma_record_step(f, 2, d + 1);
                }
                assert(s.written() =~= w0 + map_entries(f.take(2), d + 1));
                s.end_map();
                assert(s.written() =~= old(s).written() + self.text(d));
            },
            _ => {},
        }
    }
}

impl Serialize for PBXObject {
    /// Written as a record whose first entry is the tag.
    open spec fn text(&self, depth: nat) -> Seq<char> {
        map_text(self.fields(depth + 1), depth)
    }

    open spec fn height(&self) -> nat {
        3
    }

    fn serialize(&self, s: &mut Serializer) {
        match self {
            PBXObject::PBXFileReference { .. } => self.serialize_pbx_file_reference(s),
            PBXObject::PBXBuildFile { .. } => self.serialize_pbx_build_file(s),
            PBXObject::PBXProject { .. } => self.serialize_pbx_project(s),
            PBXObject::PBXNativeTarget { .. } => self.serialize_pbx_native_target(s),
            PBXObject::XCBuildConfiguration { .. } => self.serialize_xc_build_configuration(s),
            PBXObject::XCConfigurationList { .. } => self.serialize_xc_configuration_list(s),
            PBXObject::PBXSourcesBuildPhase { .. } => self.serialize_pbx_sources_build_phase(s),
            PBXObject::PBXFrameworksBuildPhase { .. } => self.serialize_pbx_frameworks_build_phase(s),
            PBXObject::PBXShellScriptBuildPhase { .. } => self.serialize_pbx_shell_script_build_phase(s),
            PBXObject::PBXCopyFilesBuildPhase { .. } => self.serialize_pbx_copy_files_build_phase(s),
            PBXObject::PBXResourcesBuildPhase { .. } => self.serialize_pbx_resources_build_phase(s),
        }
    }
}

/// A whole project: two format versions, its objects in insertion order, and the
/// object it starts from.
#[derive(Debug)]
pub struct PBXProject {
    archive_version: i32,
    object_version: i32,
    objects: IndexMap<usize, PBXObject>,
    root_object: Option<PBXObjectID>,
}

impl PBXProject {
    pub closed spec fn archive(&self) -> i32 {
        self.archive_version
    }

    pub closed spec fn object_model(&self) -> i32 {
        self.object_version
    }

    pub closed spec fn object_map(&self) -> IndexMap<usize, PBXObject> {
        self.objects
    }

    pub closed spec fn root(&self) -> Option<PBXObjectID> {
        self.root_object
    }

    /// The objects with their identifiers, in insertion order.
    pub open spec fn entries(&self) -> Seq<(usize, PBXObject)> {
        object_entries(self.object_map())
    }

    /// Every object is keyed by its position of insertion.
    pub open spec fn wf(&self) -> bool {
        forall|i: int| 0 <= i < self.entries().len() ==> #[trigger] self.entries()[i].0 == i
    }

    /// The entries of the project record, in the order they are written, each value as
    /// written at `depth`.
    pub open spec fn fields(&self, depth: nat) -> Seq<(Seq<char>, Seq<char>)> {
        seq![
            ("archiveVersion"@, int_text(self.archive() as int)),
            ("objectVersion"@, int_text(self.object_model() as int)),
            ("objects"@, self.object_map().text(depth)),
            ("rootObject"@, self.root().text(depth)),
        ]
    }

    /// An empty project with the given versions and no root object.
    pub fn new(archive_version: i32, object_version: i32) -> (r: Self)
        ensures
            r.archive() == archive_version,
            r.object_model() == object_version,
            r.entries() == Seq::<(usize, PBXObject)>::empty(),
            r.root() == None::<PBXObjectID>,
            r.wf(),
    {
        PBXProject {
            archive_version,
            object_version,
            objects: new_object_map(),
            root_object: None,
        }
    }

    /// Adds an object last and returns its identifier: the number of objects before it.
    pub fn add_object(&mut self, object: PBXObject) -> (r: PBXObjectID)
        requires
            old(self).wf(),
            old(self).entries().len() < usize::MAX,
        ensures
            final(self).wf(),
            r.index() == old(self).entries().len(),
            final(self).entries() == old(self).entries().push((r.index() as usize, object)),
            final(self).archive() == old(self).archive(),
            final(self).object_model() == old(self).object_model(),
            final(self).root() == old(self).root(),
    {
        let n = object_map_len(&self.objects);
        let id = PBXObjectID(n);
        object_map_insert(&mut self.objects, n, object);
        id
    }

    /// Names the object the project starts from, replacing any earlier one. Whether
    /// the project holds that object is not checked.
    pub fn set_root_object(&mut self, object_id: PBXObjectID)
        ensures
            final(self).root() == Some(object_id),
            final(self).entries() == old(self).entries(),
            final(self).archive() == old(self).archive(),
            final(self).object_model() == old(self).object_model(),
    {
        self.root_object = Some(object_id);
    }
}

impl Default for PBXProject {
    /// An empty project with archive version 1 and object version 55.
    fn default() -> (r: Self)
        ensures
            r.archive() == 1,
            r.object_model() == 55,
            r.entries() == Seq::<(usize, PBXObject)>::empty(),
            r.root() == None::<PBXObjectID>,
            r.wf(),
    {
        Self::new(1, 55)
    }
}

impl Serialize for PBXProject {
    /// Written as a record of its four fields.
    open spec fn text(&self, depth: nat) -> Seq<char> {
        map_text(self.fields(depth + 1), depth)
    }

    open spec fn height(&self) -> nat {
        5
    }

    fn serialize(&self, s: &mut Serializer) {
        let ghost d = s.depth();
        s.serialize_struct("PBXProject", 4);
        let ghost w0 = s.written();
        let ghost f = self.fields(d + 1);
        s.serialize_field("archiveVersion", &self.archive_version);
        proof {
            lemma_record_step(f, 1, d + 1);
        }
        assert(s.written() =~= w0 + map_entries(f.take(1), d + 1));
        s.serialize_field("objectVersion", &self.object_version);
        proof {
            lemma_record_step(f, 2, d + 1);
        }
        assert(s.written() =~= w0 + map_entries(f.take(2), d + 1));
        s.serialize_field("objects", &self.objects);
        proof {
            lemma_record_step(f, 3, d + 1);
        }
        assert(s.written() =~= w0 + map_entries(f.take(3), d + 1));
        s.serialize_field("rootObject", &self.root_object);
        proof {
            lemma_record_step(f, 4, d + 1);
        }
        assert(s.written() =~= w0 + map_entries(f.take(4), d + 1));
        s.end_map();
        assert(s.written() =~= old(s).written() + self.text(d));
        assert(s.written() =~= old(s).written() + self.text(d));
    }
}

} // verus!
