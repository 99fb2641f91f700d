use uefapi_runner::config::example;
use uefapi_runner::config::RunnerConfig;
use uefapi_runner::document::generate;
use uefapi_runner::document::parse_config;
use uefapi_runner::document::render_config;
use uefapi_runner::document::ParseError;
use uefapi_runner::schema::decode_config;
use uefapi_runner::schema::encode_config;
use uefapi_runner::schema::Field;
use uefapi_runner::schema::SchemaError;

const EXAMPLE_TEXT: &str = "project_path = \".\"\n\
auto_build = true\n\
build_cmd = \"build --target x86_64-unknown-uefi --release\"\n\
binary_path = \"target/x86_64-unknown-uefi/debug/your_bin_name.efi\"\n\
efi_name = \"BOOTX64.EFI\"\n\
move_binary = true\n\
qemu_cmd = \"/path_to_qemu/qemu-system-x86_64\"\n\
ovmf_path = \"/path_to_ovmf_files\"\n\
stdio_serial = true\n\
log_serial = true\n\
log_path = \"runner-x86_64-release.log\"\n";

fn sample() -> RunnerConfig {
    RunnerConfig {
        project_path: "/work/kernel".to_string(),
        auto_build: false,
        build_cmd: String::new(),
        binary_path: "out/kernel.efi".to_string(),
        efi_name: "BOOTX64.EFI".to_string(),
        move_binary: false,
        qemu_cmd: "qemu-system-x86_64".to_string(),
        ovmf_path: "/usr/share/ovmf".to_string(),
        stdio_serial: true,
        log_serial: false,
        log_path: "serial \"one\".log".to_string(),
    }
}

#[test]
fn example_has_documented_values() {
    let config = example();
    assert_eq!(config.project_path, ".");
    assert!(config.auto_build);
    assert_eq!(config.build_cmd, "build --target x86_64-unknown-uefi --release");
    assert_eq!(config.binary_path, "target/x86_64-unknown-uefi/debug/your_bin_name.efi");
    assert_eq!(config.efi_name, "BOOTX64.EFI");
    assert!(config.move_binary);
    assert_eq!(config.qemu_cmd, "/path_to_qemu/qemu-system-x86_64");
    assert_eq!(config.ovmf_path, "/path_to_ovmf_files");
    assert!(config.stdio_serial);
    assert!(config.log_serial);
    assert_eq!(config.log_path, "runner-x86_64-release.log");
}

#[test]
fn generate_writes_fields_in_schema_order() {
    assert_eq!(generate().unwrap(), EXAMPLE_TEXT);
}

#[test]
fn generate_twice_gives_identical_text() {
    let first = generate().unwrap();
    let second = generate().unwrap();
    assert_eq!(first.as_bytes(), second.as_bytes());
}

#[test]
fn example_text_parses_to_example() {
    assert_eq!(parse_config(EXAMPLE_TEXT), Ok(example()));
}

#[test]
fn render_then_parse_gives_the_same_configuration() {
    let config = sample();
    let text = render_config(&config).unwrap();
    assert_eq!(parse_config(&text), Ok(config));
}

#[test]
fn render_differs_from_its_input_text() {
    let config = sample();
    let text = render_config(&config).unwrap();
    assert!(text.contains("binary_path = \"out/kernel.efi\"\n"));
    assert!(text.contains("auto_build = false\n"));
}

#[test]
fn encode_then_decode_gives_the_same_configuration() {
    let config = sample();
    let read: Vec<(String, Option<Field>)> = encode_config(&config)
        .into_iter()
        .map(|(key, field)| (key, Some(field)))
        .collect();
    assert_eq!(decode_config(&read), Ok(config));
}

#[test]
fn encode_lists_eleven_entries_in_order() {
    let entries = encode_config(&example());
    let keys: Vec<&str> = entries.iter().map(|(key, _)| key.as_str()).collect();
    assert_eq!(
        keys,
        vec![
            "project_path",
            "auto_build",
            "build_cmd",
            "binary_path",
            "efi_name",
            "move_binary",
            "qemu_cmd",
            "ovmf_path",
            "stdio_serial",
            "log_serial",
            "log_path"
        ]
    );
    assert_eq!(entries[4].1, Field::Text("BOOTX64.EFI".to_string()));
    assert_eq!(entries[5].1, Field::Flag(true));
}

#[test]
fn parse_rejects_text_that_is_no_document() {
    match parse_config("project_path = ") {
        Err(ParseError::Syntax { message }) => assert!(!message.is_empty()),
        other => panic!("unexpected result: {:?}", other),
    }
}

#[test]
fn parse_names_the_first_missing_key() {
    let text = EXAMPLE_TEXT
        .replace("efi_name = \"BOOTX64.EFI\"\n", "")
        .replace("log_serial = true\n", "");
    assert_eq!(
        parse_config(&text),
        Err(ParseError::Schema(SchemaError::Missing { field: "efi_name".to_string() }))
    );
}

#[test]
fn parse_names_a_key_of_the_wrong_kind() {
    let text = EXAMPLE_TEXT.replace("move_binary = true", "move_binary = \"yes\"");
    assert_eq!(
        parse_config(&text),
        Err(ParseError::Schema(SchemaError::Mistyped { field: "move_binary".to_string() }))
    );
    let text = EXAMPLE_TEXT.replace("log_path = \"runner-x86_64-release.log\"", "log_path = 7");
    assert_eq!(
        parse_config(&text),
        Err(ParseError::Schema(SchemaError::Mistyped { field: "log_path".to_string() }))
    );
}

#[test]
fn parse_ignores_keys_outside_the_schema() {
    let text = format!("{}extra = 3\n\n[section]\ninner = true\n", EXAMPLE_TEXT);
    assert_eq!(parse_config(&text), Ok(example()));
}

#[test]
fn parse_takes_keys_in_any_order() {
    let text = "log_path = \"a.log\"\nlog_serial = false\nstdio_serial = false\n\
ovmf_path = \"/fw\"\nqemu_cmd = \"qemu\"\nmove_binary = false\nefi_name = \"X.EFI\"\n\
binary_path = \"b.efi\"\nbuild_cmd = \"build\"\nauto_build = true\nproject_path = \"p\"\n";
    let config = parse_config(text).unwrap();
    assert_eq!(config.project_path, "p");
    assert_eq!(config.efi_name, "X.EFI");
    assert!(config.auto_build);
    assert!(!config.move_binary);
    assert_eq!(config.log_path, "a.log");
}

#[test]
fn decode_reads_the_first_entry_under_a_key() {
    let mut read: Vec<(String, Option<Field>)> = encode_config(&example())
        .into_iter()
        .map(|(key, field)| (key, Some(field)))
        .collect();
    read.push(("efi_name".to_string(), Some(Field::Text("LATER.EFI".to_string()))));
    assert_eq!(decode_config(&read).unwrap().efi_name, "BOOTX64.EFI");
}

#[test]
fn decode_rejects_a_value_of_another_kind() {
    let mut read: Vec<(String, Option<Field>)> = encode_config(&example())
        .into_iter()
        .map(|(key, field)| (key, Some(field)))
        .collect();
    read[0].1 = None;
    assert_eq!(
        decode_config(&read),
        Err(SchemaError::Mistyped { field: "project_path".to_string() })
    );
    assert_eq!(
        decode_config(&Vec::new()),
        Err(SchemaError::Missing { field: "project_path".to_string() })
    );
}
