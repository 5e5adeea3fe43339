use filed::entry::FileData;
use filed::listing::sort_entries;

fn file(name: &str) -> FileData {
    FileData::new(format!("/x/{}", name), false, 1, None, None)
}

fn dir(name: &str) -> FileData {
    FileData::new(format!("/x/{}", name), true, 0, None, None)
}

fn names(entries: &Vec<FileData>) -> Vec<String> {
    let mut out = Vec::new();
    for e in entries {
        out.push(e.name.clone());
    }
    out
}

#[test]
fn directories_come_first_in_stable_order() {
    let raw = vec![file("z.txt"), dir("beta"), file("a.txt"), dir("alpha"), file("m.txt")];
    let ordered = sort_entries(&raw);
    assert_eq!(
        names(&ordered),
        vec![
            String::from("beta"),
            String::from("alpha"),
            String::from("z.txt"),
            String::from("a.txt"),
            String::from("m.txt"),
        ]
    );
}

#[test]
fn every_directory_index_precedes_every_file_index() {
    let raw = vec![file("1"), dir("2"), file("3"), dir("4"), dir("5"), file("6")];
    let ordered = sort_entries(&raw);
    let mut seen_file = false;
    for e in &ordered {
        if e.is_dir {
            assert!(!seen_file, "directory after a file");
        } else {
            seen_file = true;
        }
    }
    assert_eq!(ordered.len(), raw.len());
}

#[test]
fn repeated_ordering_is_identical() {
    let raw = vec![file("z.txt"), dir("beta"), file("a.txt"), dir("alpha")];
    let once = sort_entries(&raw);
    let twice = sort_entries(&raw);
    assert_eq!(names(&once), names(&twice));
}

#[test]
fn empty_and_single_class_listings() {
    let none: Vec<FileData> = Vec::new();
    assert_eq!(sort_entries(&none).len(), 0);
    let only_files = vec![file("a"), file("b")];
    assert_eq!(names(&sort_entries(&only_files)), vec![String::from("a"), String::from("b")]);
    let only_dirs = vec![dir("a"), dir("b")];
    assert_eq!(names(&sort_entries(&only_dirs)), vec![String::from("a"), String::from("b")]);
}
