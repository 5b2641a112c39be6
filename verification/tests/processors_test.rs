use cimishi::config::pipeline::{FilterProcessorConfig, ProcessorConfig, UnzipProcessorConfig};
use cimishi::processors::{create_processor, FilterProcessor, ProcessedFile, UnzipProcessor};
use cimishi::sources::FetchedFile;

fn make_file(name: &str) -> ProcessedFile {
    ProcessedFile { path: name.to_string(), filename: name.to_string(), content: Vec::new(), source: "test".to_string() }
}

fn with_content(path: &str, name: &str, content: Vec<u8>) -> ProcessedFile {
    ProcessedFile { path: path.to_string(), filename: name.to_string(), content, source: "src".to_string() }
}

fn gzip(data: &[u8]) -> Vec<u8> {
    let reader = tokio::io::BufReader::new(std::io::Cursor::new(data.to_vec()));
    let mut enc = async_compression::tokio::bufread::GzipEncoder::new(reader);
    let mut out = Vec::new();
    futures::executor::block_on(tokio::io::AsyncReadExt::read_to_end(&mut enc, &mut out)).unwrap();
    out
}

fn zip(entries: &[(&str, &[u8])]) -> Vec<u8> {
    futures::executor::block_on(async {
        let mut buf = futures::io::Cursor::new(Vec::new());
        let mut w = async_zip::base::write::ZipFileWriter::new(&mut buf);
        for (name, data) in entries {
            let e = async_zip::ZipEntryBuilder::new((*name).to_string().into(), async_zip::Compression::Deflate);
            w.write_entry_whole(e, data).await.unwrap();
        }
        w.close().await.unwrap();
        buf.into_inner()
    })
}

fn unzip_config(patterns: &[&str]) -> UnzipProcessorConfig {
    UnzipProcessorConfig {
        patterns: patterns.iter().map(|p| p.to_string()).collect(),
        archive_patterns: vec!["*.zip".to_string()],
        gzip_patterns: vec!["*.gz".to_string(), "*.gzip".to_string()],
    }
}

#[test]
fn test_include_filter() {
    let processor = FilterProcessor::new(FilterProcessorConfig { included: vec!["*.xml".to_string()], exclude: vec![] });
    let files = vec![make_file("test.xml"), make_file("test.zip"), make_file("data.xml")];
    let result = processor.process(files).unwrap();
    assert_eq!(result.len(), 2);
}

#[test]
fn test_exclude_filter() {
    let processor = FilterProcessor::new(FilterProcessorConfig { included: vec![], exclude: vec!["*.zip".to_string()] });
    let files = vec![make_file("test.xml"), make_file("test.zip"), make_file("data.xml")];
    let result = processor.process(files).unwrap();
    assert_eq!(result.len(), 2);
}

#[test]
fn test_combined_include_exclude() {
    let processor = FilterProcessor::new(FilterProcessorConfig {
        included: vec!["*.xml".to_string(), "*.rdf".to_string()],
        exclude: vec!["*_BD_*".to_string()],
    });
    let files = vec![make_file("test_EQ.xml"), make_file("test_BD_.xml"), make_file("test.rdf"), make_file("test.zip")];
    let result = processor.process(files).unwrap();
    assert_eq!(result.len(), 2);
    assert!(result.iter().any(|f| f.filename == "test_EQ.xml"));
    assert!(result.iter().any(|f| f.filename == "test.rdf"));
}

#[test]
fn test_empty_patterns_passes_all() {
    let processor = FilterProcessor::new(FilterProcessorConfig { included: vec![], exclude: vec![] });
    let files = vec![make_file("data.xml"), make_file("image.png"), make_file("report.csv")];
    let result = processor.process(files).unwrap();
    assert_eq!(result.len(), 3);
}

#[test]
fn test_no_matches_returns_empty() {
    let processor = FilterProcessor::new(FilterProcessorConfig { included: vec!["*.csv".to_string()], exclude: vec![] });
    let files = vec![make_file("test.xml"), make_file("data.xml")];
    let result = processor.process(files).unwrap();
    assert_eq!(result.len(), 0);
}

#[test]
fn filter_keeps_order_and_is_idempotent() {
    let processor = FilterProcessor::new(FilterProcessorConfig { included: vec!["*.xml".to_string()], exclude: vec![] });
    let once = processor.process(vec![make_file("b.xml"), make_file("x.txt"), make_file("a.xml")]).unwrap();
    let names: Vec<&str> = once.iter().map(|f| f.filename.as_str()).collect();
    assert_eq!(names, vec!["b.xml", "a.xml"]);
    let twice = processor.process(once.clone()).unwrap();
    assert_eq!(twice.len(), once.len());
    assert!(processor.should_include("c.xml"));
    assert!(!processor.should_include("c.rdf"));
}

#[test]
fn filter_ignores_patterns_that_do_not_compile() {
    // "[" does not compile, so no include pattern is left and everything passes.
    let processor = FilterProcessor::new(FilterProcessorConfig { included: vec!["[".to_string()], exclude: vec![] });
    assert_eq!(processor.process(vec![make_file("a.png"), make_file("b.xml")]).unwrap().len(), 2);
    assert_eq!(processor.name(), "filter");
}

#[test]
fn unzip_recognises_archives() {
    let p = UnzipProcessor::new(unzip_config(&[]));
    assert!(p.is_zip_archive("data.zip"));
    assert!(!p.is_zip_archive("data.xml"));
    assert!(p.is_gzip_file("data.xml.gz"));
    let q = UnzipProcessor::new(UnzipProcessorConfig { patterns: vec![], archive_patterns: vec![], gzip_patterns: vec![] });
    assert!(q.is_gzip_file("data.gzip"));
    assert!(!q.is_gzip_file("data.xml"));
    assert!(q.matches_extract_pattern("anything"));
    let r = UnzipProcessor::new(unzip_config(&["*.xml"]));
    assert!(r.matches_extract_pattern("a.xml"));
    assert!(!r.matches_extract_pattern("a.png"));
    assert_eq!(p.name(), "decompress");
}

#[test]
fn gzip_file_is_decompressed_and_renamed() {
    let p = UnzipProcessor::new(unzip_config(&[]));
    let f = with_content("dir/a.xml.gz", "a.xml.gz", gzip(b"<rdf/>"));
    let d = p.decompress_gzip(&f).unwrap();
    assert_eq!(d.filename, "a.xml");
    assert_eq!(d.path, "dir/a.xml.gz:decompressed");
    assert_eq!(d.content, b"<rdf/>".to_vec());
    assert_eq!(d.source, "src");
    let g = with_content("b.gzip", "b.gzip", gzip(b"x"));
    assert_eq!(p.decompress_gzip(&g).unwrap().filename, "b");
}

#[test]
fn broken_gzip_is_an_error() {
    let p = UnzipProcessor::new(unzip_config(&[]));
    let f = with_content("a.gz", "a.gz", b"not gzip".to_vec());
    match p.decompress_gzip(&f) {
        Err(e) => assert!(e.to_string().starts_with("Zip error: Failed to decompress gzip 'a.gz'")),
        Ok(_) => panic!("expected an error"),
    }
}

#[test]
fn zip_entries_are_extracted_in_order() {
    let p = UnzipProcessor::new(unzip_config(&["*.xml"]));
    let archive = zip(&[
        ("dir/", b""),
        ("dir/one.xml", b"1"),
        ("skip.png", b"2"),
        ("two.xml", b"3"),
        ("nested/three.xml.gz", &gzip(b"4")),
    ]);
    let f = with_content("in/a.zip", "a.zip", archive);
    let out = p.extract_zip(&f).unwrap();
    let names: Vec<&str> = out.iter().map(|f| f.filename.as_str()).collect();
    assert_eq!(names, vec!["one.xml", "two.xml", "three.xml"]);
    assert_eq!(out[0].path, "in/a.zip:dir/one.xml");
    assert_eq!(out[0].content, b"1".to_vec());
    assert_eq!(out[1].content, b"3".to_vec());
    assert_eq!(out[2].content, b"4".to_vec());
}

#[test]
fn extract_patterns_apply_after_nested_gzip_is_unpacked() {
    let p = UnzipProcessor::new(UnzipProcessorConfig {
        patterns: vec!["*.xml".to_string(), "*.rdf".to_string()],
        archive_patterns: vec!["*.zip".to_string()],
        gzip_patterns: vec!["*.gz".to_string(), "*.gzip".to_string()],
    });
    let archive = zip(&[("m.xml.gz", &gzip(b"<x/>")), ("p.png.gz", &gzip(b"p")), ("bad.xml.gz", b"plain")]);
    let out = p.extract_zip(&with_content("a.zip", "a.zip", archive)).unwrap();
    assert_eq!(out.len(), 1);
    assert_eq!(out[0].filename, "m.xml");
    assert_eq!(out[0].content, b"<x/>".to_vec());
    assert_eq!(out[0].source, "src");
}

#[test]
fn nested_gzip_in_zip_is_decompressed() {
    let p = UnzipProcessor::new(unzip_config(&[]));
    let archive = zip(&[("n/three.xml.gz", &gzip(b"4")), ("bad.gz", b"plain")]);
    let out = p.extract_zip(&with_content("a.zip", "a.zip", archive)).unwrap();
    assert_eq!(out.len(), 2);
    assert_eq!(out[0].filename, "three.xml");
    assert_eq!(out[0].path, "a.zip:n/three.xml.gz:decompressed");
    assert_eq!(out[0].content, b"4".to_vec());
    // A nested file that does not decompress is kept as it is.
    assert_eq!(out[1].filename, "bad.gz");
    assert_eq!(out[1].content, b"plain".to_vec());
}

#[test]
fn broken_zip_is_an_error() {
    let p = UnzipProcessor::new(unzip_config(&[]));
    match p.extract_zip(&with_content("a.zip", "a.zip", b"nope".to_vec())) {
        Err(e) => assert!(e.to_string().starts_with("Zip error: Failed to open zip 'a.zip'")),
        Ok(_) => panic!("expected an error"),
    }
}

#[test]
fn unzip_process_mixes_archives_and_plain_files() {
    let p = UnzipProcessor::new(unzip_config(&["*.xml"]));
    let files = vec![
        with_content("p.xml", "p.xml", b"p".to_vec()),
        with_content("a.zip", "a.zip", zip(&[("x.xml", b"x")])),
        with_content("broken.zip", "broken.zip", b"junk".to_vec()),
        with_content("g.xml.gz", "g.xml.gz", gzip(b"g")),
        with_content("h.png.gz", "h.png.gz", gzip(b"h")),
        with_content("bad.gz", "bad.gz", b"junk".to_vec()),
    ];
    let out = p.process(files).unwrap();
    let names: Vec<&str> = out.iter().map(|f| f.filename.as_str()).collect();
    // The broken archives are skipped, and the decompressed PNG is not
    // selected by the extract patterns.
    assert_eq!(names, vec!["p.xml", "x.xml", "g.xml"]);
}

#[test]
fn processors_are_built_from_configuration() {
    let unzip = create_processor(&ProcessorConfig::Unzip(unzip_config(&[])));
    assert_eq!(unzip.name(), "decompress");
    let filter = create_processor(&ProcessorConfig::Filter(FilterProcessorConfig {
        included: vec!["*.xml".to_string()],
        exclude: vec![],
    }));
    assert_eq!(filter.name(), "filter");
    assert_eq!(filter.process(vec![make_file("a.xml"), make_file("b.txt")]).unwrap().len(), 1);
}

#[test]
fn fetched_file_becomes_processed_file() {
    let f = FetchedFile { path: "p".to_string(), filename: "f".to_string(), content: vec![1, 2], source: "s".to_string() };
    let p = ProcessedFile::from(f);
    assert_eq!(p.path, "p");
    assert_eq!(p.filename, "f");
    assert_eq!(p.content, vec![1, 2]);
    assert_eq!(p.source, "s");
}

#[test]
fn filtering_parts_equals_filtering_the_whole() {
    let processor = FilterProcessor::new(FilterProcessorConfig { included: vec!["*.xml".to_string()], exclude: vec!["b*".to_string()] });
    let a = vec![make_file("a.xml"), make_file("b.xml")];
    let b = vec![make_file("c.txt"), make_file("d.xml")];
    let whole: Vec<ProcessedFile> = a.iter().chain(b.iter()).cloned().collect();
    let mut parts = processor.process(a).unwrap();
    parts.extend(processor.process(b).unwrap());
    let whole_names: Vec<String> = processor.process(whole).unwrap().into_iter().map(|f| f.filename).collect();
    let part_names: Vec<String> = parts.into_iter().map(|f| f.filename).collect();
    assert_eq!(whole_names, part_names);
    assert_eq!(whole_names, vec!["a.xml".to_string(), "d.xml".to_string()]);
}

#[test]
fn unzipping_parts_equals_unzipping_the_whole() {
    let p = UnzipProcessor::new(unzip_config(&[]));
    let a = vec![with_content("g.nt.gz", "g.nt.gz", gzip(b"g")), with_content("p.nt", "p.nt", b"p".to_vec())];
    let b = vec![with_content("a.zip", "a.zip", zip(&[("x.nt", b"x")]))];
    let whole: Vec<ProcessedFile> = a.iter().chain(b.iter()).cloned().collect();
    let mut parts = p.process(a).unwrap();
    parts.extend(p.process(b).unwrap());
    let whole_out = p.process(whole).unwrap();
    let names = |v: &Vec<ProcessedFile>| v.iter().map(|f| f.filename.clone()).collect::<Vec<_>>();
    assert_eq!(names(&whole_out), names(&parts));
    assert_eq!(names(&whole_out), vec!["g.nt".to_string(), "p.nt".to_string(), "x.nt".to_string()]);
    // Plain files pass through unchanged.
    let plain = p.process(vec![with_content("q.ttl", "q.ttl", b"q".to_vec())]).unwrap();
    assert_eq!(plain[0].path, "q.ttl");
    assert_eq!(plain[0].content, b"q".to_vec());
}
