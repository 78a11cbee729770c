use rocm_build::half::config::PackageTypeCopy;
use rocm_build::hip_info::{c_chars_to_string, DeviceProperties, DevicePropertiesError, RawDeviceProps};
use rocm_build::paths::{absolute_all, absolute_from_dir, file_name_or_empty_str};
use rocm_build::plan::{select_copies, FoundEntry, PackageFilter};
use rocm_build::text::{
    cat, cat3, str_contains, str_ends_with, str_eq, str_lex_le, str_starts_with, trim_end_slashes_str,
    usize_to_string,
};

fn s(x: &str) -> String {
    x.to_string()
}

fn found(path: &str, is_file: bool) -> FoundEntry {
    FoundEntry { path: s(path), is_file }
}

fn pairs(r: Result<Vec<rocm_build::plan::CopyOp>, String>) -> Vec<(String, String)> {
    r.unwrap().into_iter().map(|c| (c.from, c.to)).collect()
}

#[test]
fn paths_are_made_absolute() {
    assert_eq!(absolute_from_dir("/cwd", "rel/dir"), "/cwd/rel/dir");
    assert_eq!(absolute_from_dir("/cwd", "/abs"), "/abs");
    assert_eq!(absolute_from_dir("/cwd/", "x"), "/cwd/x");
    assert_eq!(absolute_from_dir("", "x"), "x");
    assert_eq!(absolute_from_dir("/cwd", ""), "/cwd/");
    assert_eq!(
        absolute_all("/c", &vec![s("a"), s("/b"), s("c/d")]),
        vec![s("/c/a"), s("/b"), s("/c/c/d")]
    );
}

#[test]
fn file_names() {
    assert_eq!(file_name_or_empty_str("/a/b/hip"), "hip");
    assert_eq!(file_name_or_empty_str("/a/b/hip/"), "hip");
    assert_eq!(file_name_or_empty_str("/"), "");
    assert_eq!(file_name_or_empty_str("/a/.."), "");
}

#[test]
fn text_helpers() {
    assert_eq!(trim_end_slashes_str("hip//"), "hip");
    assert_eq!(trim_end_slashes_str("hip"), "hip");
    assert_eq!(trim_end_slashes_str("/"), "");
    assert!(str_eq("a", "a"));
    assert!(!str_eq("a", "b"));
    assert!(str_starts_with("abc", "ab"));
    assert!(str_ends_with("abc", "bc"));
    assert!(!str_ends_with("c", "bc"));
    assert!(str_contains("abcd", "bc"));
    assert!(str_contains("abcd", ""));
    assert!(!str_contains("abcd", "ca"));
    assert_eq!(cat("a", "b"), "ab");
    assert_eq!(cat3("a", "b", "c"), "abc");
    assert_eq!(usize_to_string(0), "0");
    assert_eq!(usize_to_string(1207), "1207");
    assert!(str_lex_le("abc", "abd"));
    assert!(str_lex_le("ab", "abc"));
    assert!(!str_lex_le("b", "abc"));
    assert!(str_lex_le("same", "same"));
}

#[test]
fn copies_by_kind() {
    let f = vec![found("/b/x.deb", true), found("/b/y.rpm", true), found("/b/dir.deb", false)];
    assert_eq!(
        pairs(select_copies(&PackageFilter::ByKind(PackageTypeCopy::Deb), "/dest", &f)),
        vec![(s("/b/x.deb"), s("/dest/x.deb"))]
    );
    assert_eq!(
        pairs(select_copies(&PackageFilter::ByKind(PackageTypeCopy::All), "/dest", &f)),
        vec![(s("/b/x.deb"), s("/dest/x.deb")), (s("/b/y.rpm"), s("/dest/y.rpm"))]
    );
}

#[test]
fn copies_by_stem() {
    let f = vec![
        found("/b/amd-smi-rocm-smi-lib64.deb", true),
        found("/b/amd-smi-rocm-smi-lib32.deb", true),
        found("/b/other.deb", true),
        found("/b/x-rocm-smi-lib64/plain.deb", true),
    ];
    assert_eq!(
        pairs(select_copies(&PackageFilter::StemContains(s("-rocm-smi-lib64")), "/p", &f)),
        vec![(s("/b/amd-smi-rocm-smi-lib64.deb"), s("/p/amd-smi-rocm-smi-lib64.deb"))]
    );
}

#[test]
fn copies_of_everything() {
    let f = vec![found("/b/rocm-cmake-1.deb", true), found("/b/rocm-cmake-dir.deb", false)];
    assert_eq!(
        pairs(select_copies(&PackageFilter::Every, "/d", &f)),
        vec![(s("/b/rocm-cmake-1.deb"), s("/d/rocm-cmake-1.deb")), (s("/b/rocm-cmake-dir.deb"), s("/d/rocm-cmake-dir.deb"))]
    );
    let bad = vec![found("/b/ok.deb", true), found("/", false)];
    assert_eq!(
        select_copies(&PackageFilter::Every, "/d", &bad).err(),
        Some(s("Failed to get filename from \"/\""))
    );
}

fn raw(name: &[u8], arch: &[u8]) -> RawDeviceProps {
    RawDeviceProps {
        name: name.to_vec(),
        total_global_mem: 17163091968,
        major: 9,
        minor: 0,
        pci_bus_id: 3,
        pci_device_id: 0,
        max_threads_per_block: 1024,
        gcn_arch_name: arch.to_vec(),
    }
}

#[test]
fn c_strings() {
    assert_eq!(c_chars_to_string(b"gfx90a\0\0\0"), Some(s("gfx90a")));
    assert_eq!(c_chars_to_string(b"\0abc"), Some(s("")));
    assert_eq!(c_chars_to_string(b"ab\0\xff"), Some(s("ab")));
    assert_eq!(c_chars_to_string(b"\xff\0"), None);
    assert_eq!(c_chars_to_string("Radeon\u{2122}\0".as_bytes()), Some(s("Radeon\u{2122}")));
}

#[test]
fn device_properties_from_record() {
    let p = DeviceProperties::try_from(1, &raw(b"AMD Instinct MI210\0\0", b"gfx90a:sramecc+:xnack-\0")).unwrap();
    assert_eq!(p.device_id, 1);
    assert_eq!(p.name, "AMD Instinct MI210");
    assert_eq!(p.gcn_arch_name, "gfx90a:sramecc+:xnack-");
    assert_eq!(p.total_global_mem, 17163091968);
    assert_eq!(p.compute_major, 9);
    assert_eq!(p.compute_minor, 0);
    assert_eq!(p.pci_bus_id, 3);
    assert_eq!(p.max_threads_per_block, 1024);
    let e = DeviceProperties::try_from(0, &raw(b"\xc3\0", b"gfx\0")).err().unwrap();
    assert_eq!(e, DevicePropertiesError::Name);
    assert_eq!(e.message(), "Failed to parse device name");
    let e = DeviceProperties::try_from(0, &raw(b"ok\0", b"\xfe\0")).err().unwrap();
    assert_eq!(e, DevicePropertiesError::GcnArchName);
    assert_eq!(e.message(), "Failed to parse GCN arch name");
    let d = DeviceProperties::default();
    assert_eq!(d.device_id, 0);
    assert!(d.name.is_empty());
}
