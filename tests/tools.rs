use std::collections::HashMap;
use sprt::assets::{image_kind, is_hidden, unreferenced, ImageKind};
use sprt::config::MongoDumpInstruction;
use sprt::dump::{dump_args, dump_plans, restore_args};

fn instr() -> MongoDumpInstruction {
    MongoDumpInstruction {
        source_uri: String::from("mongodb://src"),
        target_uri: String::from("mongodb://dst"),
        db_name: String::from("shop"),
        excludes: vec![String::from("logs"), String::from("tmp")],
        family: HashMap::new(),
    }
}

#[test]
fn dump_of_one_collection() {
    let c = String::from("users");
    assert_eq!(
        dump_args(&instr(), Some(&c)),
        vec!["--archive", "--gzip", "--uri=mongodb://src", "--db=shop", "--collection=users"]
    );
}

#[test]
fn dump_of_whole_database_skips_excludes() {
    assert_eq!(
        dump_args(&instr(), None),
        vec![
            "--archive",
            "--gzip",
            "--uri=mongodb://src",
            "--db=shop",
            "--excludeCollection=logs",
            "--excludeCollection=tmp"
        ]
    );
}

#[test]
fn restore_into_part_database() {
    assert_eq!(
        restore_args(&instr(), "kim"),
        vec!["--drop", "--uri=mongodb://dst", "--nsFrom=shop.*", "--nsTo=shop_kim.*", "--gzip", "--archive"]
    );
}

#[test]
fn dump_plans_one_per_collection() {
    let cs = vec![String::from("a"), String::from("b")];
    let plans = dump_plans(&instr(), Some(&cs));
    assert_eq!(plans.len(), 2);
    assert_eq!(plans[1][4], "--collection=b");
    assert_eq!(dump_plans(&instr(), None).len(), 1);
}

#[test]
fn unreferenced_assets_are_kept() {
    let names = vec![String::from("logo.png"), String::from("bg.jpg"), String::from("x.svg")];
    let left = unreferenced(&names, "<img src=\"logo.png\"> url(x.svg)");
    assert_eq!(left, vec!["bg.jpg"]);
    assert_eq!(unreferenced(&names, ""), names);
}

#[test]
fn hidden_names() {
    assert!(is_hidden(Some(".git")));
    assert!(!is_hidden(Some("a.png")));
    assert!(!is_hidden(Some("")));
    assert!(!is_hidden(None));
}

#[test]
fn image_kinds() {
    assert_eq!(image_kind(Some("jpg")), Some(ImageKind::Jpeg));
    assert_eq!(image_kind(Some("jpeg")), Some(ImageKind::Jpeg));
    assert_eq!(image_kind(Some("png")), Some(ImageKind::Png));
    assert_eq!(image_kind(Some("gif")), None);
    assert_eq!(image_kind(None), None);
}

use sprt::pixels::{expand_palette, Rgba};

#[test]
fn palette_expands_per_pixel() {
    let red = Rgba { r: 255, g: 0, b: 0, a: 255 };
    let clear = Rgba { r: 0, g: 0, b: 0, a: 0 };
    let palette = vec![red, clear];
    assert_eq!(expand_palette(&palette, &vec![1, 0, 0]), Some(vec![clear, red, red]));
    assert_eq!(expand_palette(&palette, &vec![]), Some(vec![]));
    assert_eq!(expand_palette(&palette, &vec![0, 2]), None);
}

use sprt::assets::{chars_of, text_contains};

#[test]
fn substring_search() {
    let t = chars_of("héllo wörld");
    assert_eq!(t.len(), 11);
    assert!(text_contains(&t, &chars_of("wö")));
    assert!(text_contains(&t, &chars_of("")));
    assert!(text_contains(&t, &chars_of("héllo wörld")));
    assert!(!text_contains(&t, &chars_of("world")));
    assert!(!text_contains(&chars_of("ab"), &chars_of("abc")));
}
