use roster_canvas::display::{
    format_tooltip_style, render_banner, render_cell, render_cells, render_overlay,
};
use roster_canvas::render::{
    classify_total, display_points, get_element_name, get_image, get_tooltip_content,
    image_source_path, image_style_class, make_name_label, make_tooltip_content, ImageClass,
    ImageId, TooltipContent, TotalClass, POINT_LIMIT,
};
use roster_canvas::roster::{
    compute_total_points, get_element_points, Character, Roster, RosterElement, Support, Unit,
};
use roster_canvas::text::{decimal_text, signed_decimal_text};

fn character(name: &str, points: u32) -> RosterElement {
    RosterElement::ElemCharacter(Character { name: name.to_string(), points })
}

fn unit(name: &str, points: u32, image: &str) -> RosterElement {
    RosterElement::ElemUnit(Unit { name: name.to_string(), points, image: image.to_string() })
}

fn support(name: &str, points: u32) -> RosterElement {
    RosterElement::ElemSupport(Support { name: name.to_string(), points })
}

fn other(label: &str, points: u32, image: &str) -> RosterElement {
    RosterElement::ElemOther((label.to_string(), points, image.to_string()))
}

#[test]
fn total_of_empty_roster_is_zero() {
    let roster = Roster { elements: vec![] };
    assert_eq!(compute_total_points(&roster), 0);
}

#[test]
fn total_is_sum_of_declared_points() {
    let roster = Roster {
        elements: vec![
            character("Ayla", 30),
            unit("Spearmen", 12, "spearmen.png"),
            support("Wagon", 5),
            other("Banner", 3, "banner.png"),
            character("Free", 0),
        ],
    };
    assert_eq!(compute_total_points(&roster), 50);
}

#[test]
fn total_does_not_wrap_at_u32() {
    let roster = Roster {
        elements: vec![character("a", u32::MAX), support("b", u32::MAX), character("c", 2)],
    };
    assert_eq!(compute_total_points(&roster), 8_589_934_592u128);
}

#[test]
fn element_points_by_variant() {
    assert_eq!(get_element_points(&character("a", 1)), 1);
    assert_eq!(get_element_points(&unit("b", 2, "b.png")), 2);
    assert_eq!(get_element_points(&support("c", 3)), 3);
    assert_eq!(get_element_points(&other("d", 4, "d.png")), 4);
}

#[test]
fn classify_total_at_the_boundary() {
    assert_eq!(POINT_LIMIT, 60);
    assert_eq!(classify_total(0), TotalClass::Normal);
    assert_eq!(classify_total(59), TotalClass::Normal);
    assert_eq!(classify_total(60), TotalClass::Normal);
    assert_eq!(classify_total(61), TotalClass::OverLimit);
    assert_eq!(classify_total(u128::MAX), TotalClass::OverLimit);
}

#[test]
fn display_points_singular_and_plural() {
    assert_eq!(display_points(1), "1 Point");
    assert_eq!(display_points(0), "0 Points");
    assert_eq!(display_points(2), "2 Points");
    assert_eq!(display_points(10), "10 Points");
    assert_eq!(display_points(11), "11 Points");
    assert_eq!(display_points(u32::MAX), "4294967295 Points");
}

#[test]
fn image_style_class_inverts_only_own_images_in_dark_mode() {
    assert_eq!(image_style_class(&ImageId::Character, true), ImageClass::Inverted);
    assert_eq!(
        image_style_class(&ImageId::Custom("unit-custom.png".to_string()), true),
        ImageClass::Normal
    );
    assert_eq!(image_style_class(&ImageId::Support, false), ImageClass::Normal);
    assert_eq!(image_style_class(&ImageId::Support, true), ImageClass::Inverted);
    assert_eq!(image_style_class(&ImageId::Character, false), ImageClass::Normal);
    assert_eq!(
        image_style_class(&ImageId::Custom("unit-custom.png".to_string()), false),
        ImageClass::Normal
    );
}

#[test]
fn element_naming_a_built_in_file_is_not_inverted() {
    let image = get_image(&unit("Copy", 1, "character.png"));
    assert_eq!(image, ImageId::Custom("character.png".to_string()));
    assert_eq!(image_style_class(&image, true), ImageClass::Normal);
    let image = get_image(&other("Copy", 1, "support.png"));
    assert_eq!(image_style_class(&image, true), ImageClass::Normal);
}

#[test]
fn image_by_variant() {
    assert_eq!(get_image(&character("a", 1)), ImageId::Character);
    assert_eq!(get_image(&support("c", 3)), ImageId::Support);
    assert_eq!(get_image(&unit("b", 2, "b.png")), ImageId::Custom("b.png".to_string()));
    assert_eq!(get_image(&other("d", 4, "d.png")), ImageId::Custom("d.png".to_string()));
}

#[test]
fn image_source_lies_below_the_image_directory() {
    assert_eq!(image_source_path(&ImageId::Character), "./static/images/character.png");
    assert_eq!(image_source_path(&ImageId::Support), "./static/images/support.png");
    assert_eq!(
        image_source_path(&ImageId::Custom("unit-custom.png".to_string())),
        "./static/images/unit-custom.png"
    );
    assert_eq!(image_source_path(&ImageId::Custom(String::new())), "./static/images/");
}

#[test]
fn image_id_clone_is_equal() {
    let image = ImageId::Custom("x.png".to_string());
    assert_eq!(image.clone(), image);
    assert_eq!(ImageId::Character.clone(), ImageId::Character);
    assert_eq!(ImageId::Support.clone(), ImageId::Support);
}

#[test]
fn element_name_by_variant() {
    assert_eq!(get_element_name(&character("A", 30)), "Character: \"A\"");
    assert_eq!(get_element_name(&unit("Spearmen", 12, "s.png")), "Unit: \"Spearmen\"");
    assert_eq!(get_element_name(&support("B", 40)), "Support: \"B\"");
    assert_eq!(get_element_name(&other("Banner of war", 3, "b.png")), "Banner of war");
}

#[test]
fn element_name_escapes_inside_the_quotes() {
    assert_eq!(get_element_name(&character("a\"b", 1)), "Character: \"a\\\"b\"");
    assert_eq!(get_element_name(&unit("line\nbreak", 1, "u.png")), "Unit: \"line\\nbreak\"");
    assert_eq!(get_element_name(&support("", 1)), "Support: \"\"");
    assert_eq!(get_element_name(&other("a\"b", 1, "o.png")), "a\"b");
}

#[test]
fn name_label_from_quoted_name() {
    assert_eq!(make_name_label(&character("A", 30), "\"A\""), "Character: \"A\"");
    assert_eq!(make_name_label(&unit("A", 30, "a.png"), "<A>"), "Unit: <A>");
    assert_eq!(make_name_label(&support("A", 30), ""), "Support: ");
    assert_eq!(make_name_label(&other("Label", 30, "a.png"), "\"ignored\""), "Label");
}

#[test]
fn tooltip_content_for_an_element() {
    let content = get_tooltip_content(&character("A", 30));
    assert_eq!(content.text, "Details about: Character: \"A\"");
    assert_eq!(content.hint, "Double click to delete");
    let content = get_tooltip_content(&other("Banner", 3, "b.png"));
    assert_eq!(content.text, "Details about: Banner");
    assert_eq!(content.hint, "Double click to delete");
}

#[test]
fn tooltip_content_for_a_label() {
    let content = make_tooltip_content("Unit: \"X\"");
    assert_eq!(
        content,
        TooltipContent {
            text: "Details about: Unit: \"X\"".to_string(),
            hint: "Double click to delete".to_string(),
        }
    );
    assert_eq!(content.clone(), content);
    assert_eq!(make_tooltip_content("").text, "Details about: ");
}

#[test]
fn decimal_text_of_naturals() {
    assert_eq!(decimal_text(0), "0");
    assert_eq!(decimal_text(7), "7");
    assert_eq!(decimal_text(9), "9");
    assert_eq!(decimal_text(10), "10");
    assert_eq!(decimal_text(70), "70");
    assert_eq!(decimal_text(1234567890), "1234567890");
    assert_eq!(decimal_text(u128::MAX), "340282366920938463463374607431768211455");
}

#[test]
fn decimal_text_agrees_with_std() {
    let mut n: u128 = 0;
    while n < 2500 {
        assert_eq!(decimal_text(n), n.to_string());
        n += 1;
    }
}

#[test]
fn signed_decimal_text_of_integers() {
    assert_eq!(signed_decimal_text(0), "0");
    assert_eq!(signed_decimal_text(5), "5");
    assert_eq!(signed_decimal_text(-1), "-1");
    assert_eq!(signed_decimal_text(-120), "-120");
    assert_eq!(signed_decimal_text(i32::MAX), "2147483647");
    assert_eq!(signed_decimal_text(i32::MIN), "-2147483648");
}

#[test]
fn tooltip_style_gives_left_and_top() {
    assert_eq!(format_tooltip_style(0, 0), "left: 0px; top: 0px;");
    assert_eq!(format_tooltip_style(12, 345), "left: 12px; top: 345px;");
    assert_eq!(format_tooltip_style(-3, 7), "left: -3px; top: 7px;");
}

#[test]
fn css_class_names() {
    assert_eq!(TotalClass::Normal.css_class(), "total-points");
    assert_eq!(TotalClass::OverLimit.css_class(), "total-points over-limit");
    assert_eq!(ImageClass::Normal.css_class(), "roster-image");
    assert_eq!(ImageClass::Inverted.css_class(), "inverted-roster-image");
}

#[test]
fn banner_gives_total_and_class() {
    let roster = Roster { elements: vec![character("A", 30), support("B", 40)] };
    let banner = render_banner(&roster);
    assert_eq!(banner.text, "Total Points: 70");
    assert_eq!(banner.class, TotalClass::OverLimit);
    let empty = render_banner(&Roster { elements: vec![] });
    assert_eq!(empty.text, "Total Points: 0");
    assert_eq!(empty.class, TotalClass::Normal);
    let at_limit = render_banner(&Roster { elements: vec![character("A", 60)] });
    assert_eq!(at_limit.text, "Total Points: 60");
    assert_eq!(at_limit.class, TotalClass::Normal);
}

#[test]
fn cell_of_one_element() {
    let cell = render_cell(&character("A", 1), 4, true);
    assert_eq!(cell.index, 4);
    assert_eq!(cell.name, "Character: \"A\"");
    assert_eq!(cell.image_source, "./static/images/character.png");
    assert_eq!(cell.image_class, ImageClass::Inverted);
    assert_eq!(cell.points_label, "1 Point");
}

#[test]
fn cells_follow_the_roster_order() {
    let roster = Roster {
        elements: vec![
            character("A", 30),
            unit("U", 2, "unit-custom.png"),
            support("B", 0),
            other("Loot", 1, "loot.png"),
        ],
    };
    let cells = render_cells(&roster, true);
    assert_eq!(cells.len(), 4);
    let mut i: usize = 0;
    while i < cells.len() {
        assert_eq!(cells[i].index, i);
        i += 1;
    }
    assert_eq!(cells[0].name, "Character: \"A\"");
    assert_eq!(cells[0].image_class, ImageClass::Inverted);
    assert_eq!(cells[0].points_label, "30 Points");
    assert_eq!(cells[1].name, "Unit: \"U\"");
    assert_eq!(cells[1].image_source, "./static/images/unit-custom.png");
    assert_eq!(cells[1].image_class, ImageClass::Normal);
    assert_eq!(cells[1].points_label, "2 Points");
    assert_eq!(cells[2].name, "Support: \"B\"");
    assert_eq!(cells[2].image_source, "./static/images/support.png");
    assert_eq!(cells[2].image_class, ImageClass::Inverted);
    assert_eq!(cells[2].points_label, "0 Points");
    assert_eq!(cells[3].name, "Loot");
    assert_eq!(cells[3].image_source, "./static/images/loot.png");
    assert_eq!(cells[3].image_class, ImageClass::Normal);
    assert_eq!(cells[3].points_label, "1 Point");
    let light = render_cells(&roster, false);
    assert_eq!(light[0].image_class, ImageClass::Normal);
    assert_eq!(light[2].image_class, ImageClass::Normal);
    assert_eq!(render_cells(&Roster { elements: vec![] }, true).len(), 0);
}

#[test]
fn overlay_only_while_visible() {
    let content = Some(make_tooltip_content("Loot"));
    assert_eq!(render_overlay(false, &content, 5, 6), None);
    let overlay = render_overlay(true, &content, 5, -6).unwrap();
    assert_eq!(overlay.x, 5);
    assert_eq!(overlay.y, -6);
    assert_eq!(overlay.style, "left: 5px; top: -6px;");
    assert_eq!(overlay.content, content);
    let bare = render_overlay(true, &None, 0, 0).unwrap();
    assert_eq!(bare.content, None);
}

#[test]
fn roster_clone_is_equal() {
    let roster = Roster {
        elements: vec![
            character("A", 30),
            unit("U", 2, "unit-custom.png"),
            support("B", 0),
            other("Loot", 1, "loot.png"),
        ],
    };
    assert_eq!(roster.clone(), roster);
    assert_eq!(roster.elements[3].clone(), other("Loot", 1, "loot.png"));
}
