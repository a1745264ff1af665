use imgconv::get_filename_from_path;
use imgconv::output_file_name;

#[test]
fn basename_simple() {
    assert_eq!(get_filename_from_path(&String::from("photo.png")), "photo");
}

#[test]
fn basename_truncates_at_first_dot() {
    assert_eq!(get_filename_from_path(&String::from("my.photo.png")), "my");
    assert_eq!(get_filename_from_path(&String::from("archive.tar.gz")), "archive");
}

#[test]
fn basename_takes_final_path_segment() {
    assert_eq!(get_filename_from_path(&String::from("dir/sub/photo.png")), "photo");
    assert_eq!(get_filename_from_path(&String::from("/abs/path/pic.bmp")), "pic");
}

#[test]
fn basename_without_dot_is_whole_segment() {
    assert_eq!(get_filename_from_path(&String::from("photo")), "photo");
    assert_eq!(get_filename_from_path(&String::from("dir/photo")), "photo");
}

#[test]
fn basename_of_leading_dot_name_is_empty() {
    assert_eq!(get_filename_from_path(&String::from(".config.png")), "");
}

#[test]
fn basename_of_trailing_slash_is_empty() {
    assert_eq!(get_filename_from_path(&String::from("dir/")), "");
    assert_eq!(get_filename_from_path(&String::from("")), "");
}

#[test]
fn basename_keeps_non_ascii_characters() {
    assert_eq!(get_filename_from_path(&String::from("bilder/fötö.png")), "fötö");
}

#[test]
fn output_name_photo_png_to_webp() {
    let name = output_file_name(&String::from("photo.png"), &String::from("webp"));
    assert_eq!(name, "photo.webp");
}

#[test]
fn output_name_my_photo_png_to_jpg() {
    let name = output_file_name(&String::from("my.photo.png"), &String::from("jpg"));
    assert_eq!(name, "my.jpg");
}

#[test]
fn output_name_lowercases_token() {
    let name = output_file_name(&String::from("a.png"), &String::from("WEBP"));
    assert_eq!(name, "a.webp");
}

#[test]
fn output_name_keeps_directory_out() {
    let name = output_file_name(&String::from("shots/day.one.png"), &String::from("BMP"));
    assert_eq!(name, "day.bmp");
}
