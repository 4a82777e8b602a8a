use image_namer::paths::{
    destination_path, directory_prefix_of, extension_of, file_name_of, is_placeholder_path,
    mime_type_of,
};
use image_namer::rename::RenameOperation;
use std::path::Path;

#[test]
fn rename_keeps_directory_and_extension() {
    let op = RenameOperation { old_path: "a/photo.jpg".to_string(), new_name: "sunset".to_string() };
    assert_eq!(op.destination(), "a/sunset.jpg");
}

#[test]
fn rename_without_extension_adds_no_dot() {
    let op = RenameOperation { old_path: "a/photo".to_string(), new_name: "x".to_string() };
    assert_eq!(op.destination(), "a/x");
    assert_eq!(destination_path("photo", "x"), "x");
}

#[test]
fn destination_of_various_paths() {
    assert_eq!(destination_path("photo.jpg", "sunset"), "sunset.jpg");
    assert_eq!(destination_path("/photo.jpg", "sunset"), "/sunset.jpg");
    assert_eq!(destination_path("/home/me/pics/IMG_0001.JPEG", "cat on sofa"), "/home/me/pics/cat on sofa.JPEG");
    assert_eq!(destination_path("C:\\pics\\photo.png", "sunset"), "C:\\pics\\sunset.png");
    assert_eq!(destination_path("a.b/photo", "x"), "a.b/x");
    assert_eq!(destination_path("a/archive.tar.gz", "backup"), "a/backup.gz");
    assert_eq!(destination_path("a/photo.", "x"), "a/x");
    assert_eq!(destination_path("a/.hidden", "x"), "a/x.hidden");
    assert_eq!(destination_path("a/photo.jpg", ""), "a/.jpg");
    assert_eq!(destination_path("", "x"), "x");
}

#[test]
fn separators_at_the_end_are_passed_over() {
    assert_eq!(destination_path("a/b/", "x"), "a/x");
    assert_eq!(destination_path("a/b.jpg/", "x"), "a/x.jpg");
    assert_eq!(destination_path("a/b.jpg//", "x"), "a/x.jpg");
    assert_eq!(destination_path("a/b.jpg/.", "x"), "a/x.jpg");
    assert_eq!(destination_path("a/b.jpg/./", "x"), "a/x.jpg");
    assert_eq!(destination_path("b/", "x"), "x");
    assert_eq!(destination_path("C:\\pics\\photo.png\\", "sunset"), "C:\\pics\\sunset.png");
    assert_eq!(file_name_of("a/b/"), "b");
    assert_eq!(file_name_of("a/b//"), "b");
    assert_eq!(file_name_of("a/b/."), "b");
    assert_eq!(file_name_of("a/b/./"), "b");
    assert_eq!(extension_of("a/b.png/"), "png");
    assert_eq!(mime_type_of("a/b.png/"), "image/png");
}

#[test]
fn a_path_that_ends_in_no_file_name() {
    for path in ["", "/", "//", ".", "./", "..", "../", "a/..", "a/../", "\\"] {
        assert_eq!(file_name_of(path), "", "{:?}", path);
        assert_eq!(extension_of(path), "", "{:?}", path);
    }
    assert_eq!(destination_path("..", "x"), "../x");
    assert_eq!(destination_path("a/..", "x"), "a/../x");
    assert_eq!(destination_path("a/../", "x"), "a/../x");
    assert_eq!(destination_path("/", "x"), "/x");
    assert_eq!(destination_path(".", "x"), "./x");
    assert_eq!(destination_path("", "x"), "x");
}

#[test]
fn directory_prefix_is_what_the_name_is_put_behind() {
    assert_eq!(directory_prefix_of("a/photo.jpg"), "a/");
    assert_eq!(directory_prefix_of("photo.jpg"), "");
    assert_eq!(directory_prefix_of("/photo.jpg"), "/");
    assert_eq!(directory_prefix_of("a/b/"), "a/");
    assert_eq!(directory_prefix_of("a/.."), "a/../");
    assert_eq!(directory_prefix_of(""), "");
    assert_eq!(directory_prefix_of("/"), "/");
}

#[test]
fn paths_are_read_as_the_standard_library_reads_them() {
    let paths = [
        "", "/", "a", "a/", "a//", "a/b", "a/b/", "a//b", "/a/b.jpg", "a/b.tar.gz", "a/b.", "..",
        "a/..", "a/../", ".", "./", "./a", "a/.", "a/./", "a/b/.", "a/b/./", "a/./b", "../a.png",
        "a.b/c", "a.b/c/", "a/...", "a/..b", "a/b..", "ab", "a b/c d.jpeg",
    ];
    for path in paths {
        let name = Path::new(path).file_name().map(|n| n.to_str().unwrap()).unwrap_or("");
        assert_eq!(file_name_of(path), name, "file name of {:?}", path);
        let ext = Path::new(path).extension().map(|e| e.to_str().unwrap()).unwrap_or("");
        assert_eq!(extension_of(path), ext, "extension of {:?}", path);
        let renamed = Path::new(path).with_file_name("new.name");
        let ours = destination_path(path, "new");
        if ext.is_empty() {
            assert_eq!(Path::new(&ours), Path::new(path).with_file_name("new"), "{:?}", path);
        } else {
            assert_eq!(ours, format!("{}new.{}", directory_prefix_of(path), ext));
            assert_eq!(renamed.parent(), Path::new(&ours).parent(), "{:?}", path);
        }
    }
}

#[test]
fn extension_is_what_follows_the_last_dot_of_the_file_name() {
    assert_eq!(extension_of("a/photo.jpg"), "jpg");
    assert_eq!(extension_of("photo"), "");
    assert_eq!(extension_of("a.b/photo"), "");
    assert_eq!(extension_of("a/b.tar.gz"), "gz");
    assert_eq!(extension_of("a/photo."), "");
    assert_eq!(extension_of(""), "");
    assert_eq!(extension_of("a\\b.c\\d.webp"), "webp");
}

#[test]
fn file_name_is_what_follows_the_last_separator() {
    assert_eq!(file_name_of("a/photo.jpg"), "photo.jpg");
    assert_eq!(file_name_of("photo.jpg"), "photo.jpg");
    assert_eq!(file_name_of("a/b/"), "b");
    assert_eq!(file_name_of("C:\\pics\\photo.png"), "photo.png");
    assert_eq!(file_name_of(""), "");
}

#[test]
fn placeholder_paths() {
    for path in ["blob:1234", "blob:", "dev-file", "browser-upload-3", "temp-7"] {
        assert!(is_placeholder_path(path), "{}", path);
    }
    for path in ["", "blob", "Blob:1", "/tmp/blob:1", "a/photo.jpg", "device.jpg", "temporary.png", "browser.png", " blob:1"] {
        assert!(!is_placeholder_path(path), "{}", path);
    }
}

#[test]
fn mime_type_by_extension() {
    assert_eq!(mime_type_of("a/photo.jpg"), "image/jpeg");
    assert_eq!(mime_type_of("a/photo.jpeg"), "image/jpeg");
    assert_eq!(mime_type_of("a/photo.png"), "image/png");
    assert_eq!(mime_type_of("a/photo.webp"), "image/webp");
    assert_eq!(mime_type_of("a/photo.avif"), "image/avif");
    assert_eq!(mime_type_of("a/photo.gif"), "image/jpeg");
    assert_eq!(mime_type_of("a/photo"), "image/jpeg");
    assert_eq!(mime_type_of("a/photo.PNG"), "image/jpeg");
    assert_eq!(mime_type_of("a.png/photo"), "image/jpeg");
}
