use cimishi::config::pipeline::{AzureSourceConfig, GcsSourceConfig, LocalSourceConfig, S3SourceConfig, SourceConfig};
use cimishi::error::PipelineError;
use cimishi::sources::local::{EntryAction, EntryKind, FileProbe, PathProbe};
use cimishi::sources::object_store_source::ObjectProbe;
use cimishi::sources::{create_source, FetchedFile, LocalSource, ObjectStoreSource};

fn local(path: &str, files: &[&str], patterns: &[&str], recursive: bool) -> LocalSourceConfig {
    LocalSourceConfig {
        path: path.to_string(),
        files: files.iter().map(|f| f.to_string()).collect(),
        patterns: patterns.iter().map(|p| p.to_string()).collect(),
        recursive,
    }
}

fn s3(files: &[&str], prefix: &str, patterns: &[&str]) -> S3SourceConfig {
    S3SourceConfig {
        bucket: "bucket".to_string(),
        prefix: prefix.to_string(),
        region: "eu".to_string(),
        endpoint: None,
        files: files.iter().map(|f| f.to_string()).collect(),
        patterns: patterns.iter().map(|p| p.to_string()).collect(),
    }
}

#[test]
fn local_source_names() {
    assert_eq!(LocalSource::new(local("/data", &["a"], &[], true)).name(), "local:/data");
    assert_eq!(LocalSource::new(local("", &["a", "b"], &[], true)).name(), "local:[2 files]");
    assert_eq!(LocalSource::new(local("", &[], &[], true)).name(), "local:empty");
}

#[test]
fn local_walk_decisions() {
    let s = LocalSource::new(local("/d", &[], &["*.xml"], false));
    assert!(s.matches_patterns("a.xml"));
    assert!(!s.matches_patterns("a.txt"));
    assert_eq!(s.entry_action(EntryKind::File, "a.xml"), EntryAction::Read);
    assert_eq!(s.entry_action(EntryKind::File, "a.txt"), EntryAction::Skip);
    assert_eq!(s.entry_action(EntryKind::Directory, "sub"), EntryAction::Skip);
    assert_eq!(s.entry_action(EntryKind::Other, "x"), EntryAction::Skip);
    let r = LocalSource::new(local("/d", &[], &[], true));
    assert_eq!(r.entry_action(EntryKind::Directory, "sub"), EntryAction::Descend);
    assert_eq!(r.entry_action(EntryKind::File, "any.bin"), EntryAction::Read);
    let f = r.walked_file("/d/sub/x.xml".to_string(), vec![7]);
    assert_eq!(f.filename, "x.xml");
    assert_eq!(f.source, "local:/d");
}

#[test]
fn explicit_files_skip_missing_and_report_unreadable() {
    let s = LocalSource::new(local("", &["/a/x.xml", "/a/y.xml"], &[], true));
    assert!(matches!(s.explicit_file("/a/x.xml", FileProbe::Missing), Ok(None)));
    assert!(matches!(s.explicit_file("/a", FileProbe::NotAFile), Ok(None)));
    let f = s.explicit_file("/a/x.xml", FileProbe::Read(vec![1])).unwrap().unwrap();
    assert_eq!(f.filename, "x.xml");
    assert_eq!(f.path, "/a/x.xml");
    match s.explicit_file("/a/y.xml", FileProbe::Unreadable("denied".to_string())) {
        Err(e) => assert_eq!(e.to_string(), "Source error: local:[2 files] - Failed to read file '/a/y.xml': denied"),
        Ok(_) => panic!("expected an error"),
    }
}

#[test]
fn local_fetch_puts_listed_files_first() {
    let s = LocalSource::new(local("/d", &["/x/a.xml", "/x/b.xml"], &[], true));
    let walked = vec![FetchedFile { path: "/d/c.xml".to_string(), filename: "c.xml".to_string(), content: vec![], source: "local:/d".to_string() }];
    let out = s
        .assemble(vec![FileProbe::Read(vec![1]), FileProbe::Missing], Some(PathProbe::Directory(Ok(walked))))
        .unwrap();
    let names: Vec<&str> = out.iter().map(|f| f.filename.as_str()).collect();
    assert_eq!(names, vec!["a.xml", "c.xml"]);
}

#[test]
fn local_fetch_errors() {
    let s = LocalSource::new(local("/d", &[], &[], true));
    match s.assemble(vec![], Some(PathProbe::Missing)) {
        Err(e) => assert_eq!(e.to_string(), "Source error: local:/d - Path does not exist: /d"),
        Ok(_) => panic!("expected an error"),
    }
    match s.assemble(vec![], Some(PathProbe::File(Err("gone".to_string())))) {
        Err(e) => assert_eq!(e.to_string(), "Source error: local:/d - Failed to read file: gone"),
        Ok(_) => panic!("expected an error"),
    }
    let single = s.assemble(vec![], Some(PathProbe::File(Ok(vec![5])))).unwrap();
    assert_eq!(single.len(), 1);
    assert_eq!(single[0].path, "/d");
    assert_eq!(single[0].filename, "d");
    let empty = LocalSource::new(local("", &[], &[], true));
    assert!(empty.assemble(vec![], None).unwrap().is_empty());
}

#[test]
fn object_store_names() {
    assert_eq!(ObjectStoreSource::s3(s3(&[], "data/", &[])).name(), "s3://bucket/data/");
    assert_eq!(ObjectStoreSource::s3(s3(&["k1", "k2"], "", &[])).name(), "s3://bucket/[2 files]");
    let az = AzureSourceConfig {
        account: "acct".to_string(),
        container: "cont".to_string(),
        prefix: "p".to_string(),
        endpoint: None,
        skip_signature: false,
        files: vec![],
        patterns: vec![],
    };
    assert_eq!(ObjectStoreSource::azure(az).name(), "azure://cont/p");
    let gcs = GcsSourceConfig {
        bucket: "g".to_string(),
        prefix: String::new(),
        endpoint: None,
        service_account_key: None,
        files: vec!["a".to_string()],
        patterns: vec![],
    };
    assert_eq!(ObjectStoreSource::gcs(gcs).name(), "gs://g/[1 files]");
}

#[test]
fn object_store_listing_decisions() {
    let only_files = ObjectStoreSource::s3(s3(&["a/x.xml"], "", &[]));
    assert!(!only_files.should_list());
    assert!(only_files.list_prefix().is_none());
    let src = ObjectStoreSource::s3(s3(&["a/x.xml"], "a/", &["*.xml"]));
    assert!(src.should_list());
    assert_eq!(src.list_prefix().as_deref(), Some("a/"));
    assert_eq!(ObjectStoreSource::extract_filename("a/b/c.xml"), "c.xml");
    assert_eq!(ObjectStoreSource::extract_filename("c.xml"), "c.xml");
    let keys = vec!["a/x.xml".to_string(), "a/y.xml".to_string(), "a/z.txt".to_string()];
    assert_eq!(src.select_listed(&keys), vec!["a/y.xml".to_string()]);
}

#[test]
fn object_store_fetch_assembly() {
    let src = ObjectStoreSource::s3(s3(&["k/a.xml", "k/b.xml"], "k/", &[]));
    let out = src
        .assemble(
            vec![ObjectProbe::Fetched(Ok(vec![1])), ObjectProbe::Unavailable("404".to_string())],
            Some(Ok(vec![("k/c.xml".to_string(), Ok(vec![3]))])),
        )
        .unwrap();
    let paths: Vec<&str> = out.iter().map(|f| f.path.as_str()).collect();
    assert_eq!(paths, vec!["k/a.xml", "k/c.xml"]);
    assert_eq!(out[1].filename, "c.xml");
    assert!(matches!(
        src.assemble(vec![ObjectProbe::Fetched(Err("reset".to_string())), ObjectProbe::Unavailable(String::new())], None),
        Err(PipelineError::ObjectStore(_))
    ));
    assert!(matches!(
        src.assemble(vec![ObjectProbe::Unavailable(String::new()), ObjectProbe::Unavailable(String::new())], Some(Err("denied".to_string()))),
        Err(PipelineError::ObjectStore(_))
    ));
}

#[test]
fn sources_are_built_from_configuration() {
    let l = create_source(&SourceConfig::Local(local("/in", &[], &[], true)));
    assert_eq!(l.name(), "local:/in");
    let o = create_source(&SourceConfig::S3(s3(&[], "p", &[])));
    assert_eq!(o.name(), "s3://bucket/p");
}
