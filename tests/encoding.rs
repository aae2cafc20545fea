use indexmap::IndexMap;
use pbxproj::{
    build_settings, to_string, PBXDstSubfolderSpec, PBXObject, PBXProject, PBXSetting, Serializer,
};

fn file_reference(path: &str) -> PBXObject {
    PBXObject::PBXFileReference {
        path: path.to_string(),
        explicit_file_type: "sourcecode.swift".to_string(),
        source_tree: "<group>".to_string(),
    }
}

#[test]
fn project_with_file_reference_and_root() {
    let mut project = PBXProject::default();
    let file = project.add_object(file_reference("a.swift"));
    let root = project.add_object(PBXObject::PBXProject {
        build_configuration_list: file,
        targets: vec![file],
    });
    project.set_root_object(root);
    assert_eq!(file.value(), 0);
    assert_eq!(root.value(), 1);
    let expected = "{\n\
        \tarchiveVersion = 1;\n\
        \tobjectVersion = 55;\n\
        \tobjects = {\n\
        \t\t0 = {\n\
        \t\t\tisa = \"PBXFileReference\";\n\
        \t\t\tpath = \"a.swift\";\n\
        \t\t\texplicitFileType = \"sourcecode.swift\";\n\
        \t\t\tsourceTree = \"<group>\";\n\
        \t\t};\n\
        \t\t1 = {\n\
        \t\t\tisa = \"PBXProject\";\n\
        \t\t\tbuildConfigurationList = 0;\n\
        \t\t\ttargets = (\n\
        \t\t\t\t0,\n\
        \t\t\t);\n\
        \t\t};\n\
        \t};\n\
        \trootObject = 1;\n\
        }";
    assert_eq!(to_string(&project).unwrap(), expected);
}

#[test]
fn empty_project_has_null_root() {
    let project = PBXProject::new(1, 46);
    let expected = "{\n\tarchiveVersion = 1;\n\tobjectVersion = 46;\n\tobjects = {\n\t};\n\trootObject = null;\n}";
    assert_eq!(to_string(&project).unwrap(), expected);
}

#[test]
fn root_object_is_replaced() {
    let mut project = PBXProject::default();
    let a = project.add_object(file_reference("a.swift"));
    let b = project.add_object(file_reference("b.swift"));
    project.set_root_object(a);
    project.set_root_object(b);
    let text = to_string(&project).unwrap();
    assert!(text.ends_with("\trootObject = 1;\n}"));
}

#[test]
fn copy_files_phase_writes_subfolder_code() {
    let phase = PBXObject::PBXCopyFilesBuildPhase {
        files: vec![],
        dst_path: "".to_string(),
        dst_subfolder_spec: PBXDstSubfolderSpec::Frameworks,
    };
    let text = to_string(&phase).unwrap();
    assert_eq!(
        text,
        "{\n\tisa = \"PBXCopyFilesBuildPhase\";\n\tfiles = (\n\t);\n\tdstPath = \"\";\n\tdstSubfolderSpec = 10;\n}"
    );
    assert!(!text.contains("\"Frameworks\""));
}

#[test]
fn subfolder_codes() {
    assert_eq!(PBXDstSubfolderSpec::Wrapper.code(), 1);
    assert_eq!(PBXDstSubfolderSpec::Executables.code(), 6);
    assert_eq!(PBXDstSubfolderSpec::Resources.code(), 7);
    assert_eq!(PBXDstSubfolderSpec::Frameworks.code(), 10);
    assert_eq!(PBXDstSubfolderSpec::SharedFrameworks.code(), 11);
    assert_eq!(PBXDstSubfolderSpec::SharedSupport.code(), 12);
    assert_eq!(PBXDstSubfolderSpec::Plugins.code(), 13);
    assert_eq!(to_string(&PBXDstSubfolderSpec::Plugins).unwrap(), "13");
}

#[test]
fn empty_settings_map_in_build_file() {
    let mut project = PBXProject::default();
    let file = project.add_object(file_reference("a.swift"));
    let build_file = PBXObject::PBXBuildFile { file_ref: file, settings: IndexMap::new() };
    assert_eq!(
        to_string(&build_file).unwrap(),
        "{\n\tisa = \"PBXBuildFile\";\n\tfileRef = 0;\n\tsettings = {\n\t};\n}"
    );
}

#[test]
fn settings_map_keeps_insertion_order() {
    let mut settings = IndexMap::new();
    settings.insert("Zeta".to_string(), PBXSetting::List(vec!["a".to_string()]));
    settings.insert("Alpha".to_string(), PBXSetting::List(vec![]));
    let mut project = PBXProject::default();
    let file = project.add_object(file_reference("a.swift"));
    let build_file = PBXObject::PBXBuildFile { file_ref: file, settings };
    let expected = "{\n\
        \tisa = \"PBXBuildFile\";\n\
        \tfileRef = 0;\n\
        \tsettings = {\n\
        \t\t\"Zeta\" = (\n\
        \t\t\t\"a\",\n\
        \t\t);\n\
        \t\t\"Alpha\" = (\n\
        \t\t);\n\
        \t};\n\
        }";
    assert_eq!(to_string(&build_file).unwrap(), expected);
}

#[test]
fn setting_list_is_a_sequence_of_strings() {
    let setting = PBXSetting::List(vec!["a".to_string(), "b".to_string()]);
    assert_eq!(to_string(&setting).unwrap(), "(\n\t\"a\",\n\t\"b\",\n)");
}

#[test]
fn build_settings_keeps_order() {
    let m = build_settings([("SDKROOT", "macosx"), ("ARCHS", "arm64")]);
    assert_eq!(m.len(), 2);
    assert_eq!(m.get_index(0).unwrap(), (&"SDKROOT".to_string(), &"macosx".to_string()));
    assert_eq!(m.get_index(1).unwrap(), (&"ARCHS".to_string(), &"arm64".to_string()));
    assert_eq!(
        to_string(&m).unwrap(),
        "{\n\t\"SDKROOT\" = \"macosx\";\n\t\"ARCHS\" = \"arm64\";\n}"
    );
}

#[test]
fn build_settings_repeated_key_keeps_first_place() {
    let m = build_settings([("A", "1"), ("B", "2"), ("A", "3")]);
    assert_eq!(to_string(&m).unwrap(), "{\n\t\"A\" = \"3\";\n\t\"B\" = \"2\";\n}");
}

#[test]
fn build_settings_empty() {
    let m = build_settings([]);
    assert_eq!(to_string(&m).unwrap(), "{\n}");
}

#[test]
fn build_configuration_object() {
    let config = PBXObject::XCBuildConfiguration {
        name: "Debug".to_string(),
        build_settings: build_settings([("SWIFT_VERSION", "5.0")]),
    };
    assert_eq!(
        to_string(&config).unwrap(),
        "{\n\tisa = \"XCBuildConfiguration\";\n\tname = \"Debug\";\n\tbuildSettings = {\n\t\t\"SWIFT_VERSION\" = \"5.0\";\n\t};\n}"
    );
}

#[test]
fn native_target_fields_in_declared_order() {
    let mut project = PBXProject::default();
    let a = project.add_object(file_reference("a.swift"));
    let b = project.add_object(file_reference("b.swift"));
    let target = PBXObject::PBXNativeTarget {
        name: "App".to_string(),
        product_name: "App".to_string(),
        product_reference: a,
        product_type: "com.apple.product-type.tool".to_string(),
        build_configuration_list: b,
        build_phases: vec![a, b],
        build_rules: vec![],
        dependencies: vec![b],
    };
    let expected = "{\n\
        \tisa = \"PBXNativeTarget\";\n\
        \tname = \"App\";\n\
        \tproductName = \"App\";\n\
        \tproductReference = 0;\n\
        \tproductType = \"com.apple.product-type.tool\";\n\
        \tbuildConfigurationList = 1;\n\
        \tbuildPhases = (\n\
        \t\t0,\n\
        \t\t1,\n\
        \t);\n\
        \tbuildRules = (\n\
        \t);\n\
        \tdependencies = (\n\
        \t\t1,\n\
        \t);\n\
        }";
    assert_eq!(to_string(&target).unwrap(), expected);
}

#[test]
fn build_phase_objects() {
    let mut project = PBXProject::default();
    let a = project.add_object(file_reference("a.swift"));
    let cases = vec![
        (PBXObject::PBXSourcesBuildPhase { files: vec![a] }, "PBXSourcesBuildPhase"),
        (PBXObject::PBXFrameworksBuildPhase { files: vec![a] }, "PBXFrameworksBuildPhase"),
        (PBXObject::PBXResourcesBuildPhase { files: vec![a] }, "PBXResourcesBuildPhase"),
    ];
    for (object, kind) in cases {
        let expected = format!("{{\n\tisa = \"{}\";\n\tfiles = (\n\t\t0,\n\t);\n}}", kind);
        assert_eq!(to_string(&object).unwrap(), expected);
    }
    let list = PBXObject::XCConfigurationList { build_configurations: vec![a] };
    assert_eq!(
        to_string(&list).unwrap(),
        "{\n\tisa = \"XCConfigurationList\";\n\tbuildConfigurations = (\n\t\t0,\n\t);\n}"
    );
}

#[test]
fn shell_script_phase_writes_strings_unescaped() {
    let phase = PBXObject::PBXShellScriptBuildPhase {
        shell_path: "/bin/sh".to_string(),
        shell_script: "echo \"hi\"".to_string(),
    };
    assert_eq!(
        to_string(&phase).unwrap(),
        "{\n\tisa = \"PBXShellScriptBuildPhase\";\n\tshellPath = \"/bin/sh\";\n\tshellScript = \"echo \"hi\"\";\n}"
    );
}

#[test]
fn integers_read_back_as_the_same_value() {
    for v in [0i64, 7, 10, 42, -1, -42, 1234567890, i64::MAX, i64::MIN] {
        let text = to_string(&v).unwrap();
        assert_eq!(text, v.to_string());
        assert_eq!(text.parse::<i64>().unwrap(), v);
    }
    for v in [0u64, 9, 100, u64::MAX] {
        let text = to_string(&v).unwrap();
        assert_eq!(text.parse::<u64>().unwrap(), v);
    }
    assert_eq!(to_string(&-5i32).unwrap(), "-5");
    assert_eq!(to_string(&200u8).unwrap(), "200");
    assert_eq!(to_string(&4000000000u32).unwrap(), "4000000000");
    assert_eq!(to_string(&17usize).unwrap(), "17");
}

#[test]
fn booleans_read_back_as_the_same_value() {
    assert_eq!(to_string(&true).unwrap(), "true");
    assert_eq!(to_string(&false).unwrap(), "false");
    assert!(to_string(&true).unwrap().parse::<bool>().unwrap());
    assert!(!to_string(&false).unwrap().parse::<bool>().unwrap());
}

#[test]
fn empty_sequence_keeps_its_line_break() {
    assert_eq!(to_string(&Vec::<u64>::new()).unwrap(), "(\n)");
    let mut s = Serializer::new();
    s.indent();
    s.indent();
    s.serialize_seq(Some(0));
    s.end_seq();
    assert_eq!(s.into_output(), "(\n\t\t)");
}

#[test]
fn nested_sequences_indent_by_depth() {
    let v = vec![vec![1u64, 2], vec![]];
    assert_eq!(to_string(&v).unwrap(), "(\n\t(\n\t\t1,\n\t\t2,\n\t),\n\t(\n\t),\n)");
}

#[test]
fn unit_variant_is_a_quoted_name() {
    let mut s = Serializer::new();
    s.serialize_unit_variant("Color", 0, "Red");
    assert_eq!(s.into_output(), "\"Red\"");
}

#[test]
fn encoding_twice_gives_the_same_text() {
    let mut project = PBXProject::default();
    let file = project.add_object(file_reference("a.swift"));
    project.set_root_object(file);
    let first = to_string(&project).unwrap();
    let second = to_string(&project).unwrap();
    assert_eq!(first, second);
}

#[test]
fn absent_and_unit_are_null() {
    assert_eq!(to_string(&None::<u64>).unwrap(), "null");
    assert_eq!(to_string(&Some(3u64)).unwrap(), "3");
    let mut s = Serializer::new();
    s.serialize_unit();
    s.serialize_none();
    s.serialize_unit_struct("Marker");
    assert_eq!(s.into_output(), "nullnullnull");
}

#[test]
fn chars_and_strings_are_quoted() {
    assert_eq!(to_string(&'x').unwrap(), "\"x\"");
    assert_eq!(to_string(&"plain".to_string()).unwrap(), "\"plain\"");
    assert_eq!(to_string(&"literal").unwrap(), "\"literal\"");
}

#[test]
fn bytes_are_a_sequence_of_integers() {
    let mut s = Serializer::new();
    s.serialize_bytes(&[0u8, 255, 16]);
    assert_eq!(s.into_output(), "(\n\t0,\n\t255,\n\t16,\n)");
    let mut s = Serializer::new();
    s.serialize_bytes(&[]);
    assert_eq!(s.into_output(), "(\n)");
}

#[test]
fn tuple_is_flat() {
    let mut s = Serializer::new();
    s.serialize_tuple(3);
    s.tuple_element(true, &1u64);
    s.tuple_element(false, &"two");
    s.tuple_element(false, &true);
    s.end_tuple();
    assert_eq!(s.into_output(), "[1,\"two\",true]");
    let mut s = Serializer::new();
    s.serialize_tuple_struct("Pair", 0);
    s.end_tuple();
    assert_eq!(s.into_output(), "[]");
}

#[test]
fn newtype_variant_form() {
    let mut s = Serializer::new();
    s.serialize_newtype_variant("Shape", 1, "Circle", &5u64);
    assert_eq!(s.into_output(), "{\"Circle\":5}");
    let mut s = Serializer::new();
    s.serialize_newtype_struct("Meters", &5u64);
    assert_eq!(s.into_output(), "5");
}

#[test]
fn tuple_variant_form() {
    let mut s = Serializer::new();
    s.serialize_tuple_variant("Shape", 2, "Point", 2);
    s.tuple_element(true, &1i64);
    s.tuple_element(false, &-2i64);
    s.end_tuple_variant();
    assert_eq!(s.into_output(), "{\"Point\":[1,-2]}");
}

#[test]
fn struct_variant_form() {
    let mut s = Serializer::new();
    s.serialize_struct_variant("Shape", 3, "Rect", 2);
    s.variant_field(true, "w", &3u64);
    s.variant_field(false, "h", &4u64);
    s.end_struct_variant();
    assert_eq!(s.into_output(), "{\"Rect\":{\"w\":3,\"h\":4}}");
}

#[test]
fn map_entries_and_struct_fields() {
    let mut s = Serializer::new();
    s.serialize_map(None);
    s.serialize_key(&"k");
    s.serialize_value(&vec![1u64]);
    s.end_map();
    assert_eq!(s.into_output(), "{\n\t\"k\" = (\n\t\t1,\n\t);\n}");
    let mut s = Serializer::new();
    s.serialize_struct("Point", 2);
    s.serialize_field("y", &2u64);
    s.serialize_field("x", &1u64);
    s.end_map();
    assert_eq!(s.into_output(), "{\n\ty = 2;\n\tx = 1;\n}");
}

#[test]
fn line_starts_follow_indentation() {
    let mut s = Serializer::new();
    s.begin_line();
    s.indent();
    s.begin_line();
    s.indent();
    s.begin_line();
    s.dedent();
    s.begin_line();
    assert_eq!(s.into_output(), "\n\n\t\n\t\t\n\t");
}
