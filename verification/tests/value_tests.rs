use swoosh::action::Action;
use swoosh::components::Component;
use swoosh::image_ops::{
    completion_action, encoding_for, rotation_for, Encoding, ImageFormat, InvalidAngle,
    PixelLayout, Rotation, UnsupportedFormat,
};
use swoosh::keymap::Keymap;
use swoosh::options::{border_role, BorderRole, OptionsPanel, SECTION_HEIGHT};
use swoosh::value::{ImageInfo, ImageStatus, StatusTone};
use swoosh::{Event, Mode};

#[test]
fn status_labels() {
    assert_eq!(ImageStatus::Queued.label(), "Queued");
    assert_eq!(ImageStatus::Converting.label(), "Converting");
    assert_eq!(ImageStatus::Completed.label(), "Completed");
    assert_eq!(ImageStatus::Error(String::from("no such file")).label(), "Error: no such file");
    assert_eq!(ImageStatus::Error(String::new()).label(), "Error: ");
}

#[test]
fn status_tones_are_distinct() {
    assert_eq!(ImageStatus::Queued.tone(), StatusTone::Gray);
    assert_eq!(ImageStatus::Converting.tone(), StatusTone::Yellow);
    assert_eq!(ImageStatus::Completed.tone(), StatusTone::Green);
    assert_eq!(ImageStatus::Error(String::from("x")).tone(), StatusTone::Red);
}

#[test]
fn default_mode_is_home() {
    assert_eq!(Mode::default(), Mode::Home);
}

#[test]
fn default_status_is_queued() {
    assert_eq!(ImageStatus::default(), ImageStatus::Queued);
    let info = ImageInfo::default();
    assert_eq!(info.path, "");
    assert_eq!(info.filename, "");
    assert_eq!(info.size, "");
    assert_eq!(info.status, ImageStatus::Queued);
}

#[test]
fn status_clone_is_equal() {
    let status = ImageStatus::Error(String::from("bad"));
    assert_eq!(status.clone(), status);
    let action = Action::UpdateImageStatus { index: 3, status };
    assert_eq!(action.clone(), action);
    assert_eq!(Action::Resize(1, 2).clone(), Action::Resize(1, 2));
    assert_eq!(Action::Error(String::from("e")).clone(), Action::Error(String::from("e")));
}

#[test]
fn random_status_is_an_initial_one() {
    for _ in 0..200 {
        let status = ImageStatus::random();
        assert!(matches!(
            status,
            ImageStatus::Queued | ImageStatus::Converting | ImageStatus::Completed
        ));
    }
}

#[test]
fn random_status_reaches_every_initial_status() {
    let mut queued = false;
    let mut converting = false;
    let mut completed = false;
    for _ in 0..2000 {
        match ImageStatus::random() {
            ImageStatus::Queued => queued = true,
            ImageStatus::Converting => converting = true,
            ImageStatus::Completed => completed = true,
            ImageStatus::Error(_) => panic!("an error status was drawn"),
        }
    }
    assert!(queued);
    assert!(converting);
    assert!(completed);
}

#[test]
fn picked_status_is_passed_on() {
    assert_eq!(ImageStatus::picked_or_queued(None), ImageStatus::Queued);
    assert_eq!(
        ImageStatus::picked_or_queued(Some(ImageStatus::Completed)),
        ImageStatus::Completed
    );
    assert_eq!(
        ImageStatus::picked_or_queued(Some(ImageStatus::Error(String::from("e")))),
        ImageStatus::Error(String::from("e"))
    );
}

#[test]
fn new_image_formats_its_size() {
    let info = ImageInfo::new(String::from("/tmp/cat.png"), String::from("cat.png"), 1536);
    assert_eq!(info.path, "/tmp/cat.png");
    assert_eq!(info.filename, "cat.png");
    assert_eq!(info.size, "1.5 KB");
    assert_eq!(info.size, bytesize::ByteSize(1536).to_string());
    assert_eq!(info.status, ImageStatus::Queued);
    let small = ImageInfo::new(String::from("a"), String::from("a"), 512);
    assert_eq!(small.size, "512 B");
    let empty = ImageInfo::new(String::from("a"), String::from("a"), 0);
    assert_eq!(empty.size, "0 B");
}

#[test]
fn image_from_parts_keeps_the_parts() {
    let info = ImageInfo::from_parts(
        String::from("/x/y.jpg"),
        String::from("y.jpg"),
        String::from("3.2 MB"),
        ImageStatus::Converting,
    );
    assert_eq!(info.path, "/x/y.jpg");
    assert_eq!(info.filename, "y.jpg");
    assert_eq!(info.size, "3.2 MB");
    assert_eq!(info.status, ImageStatus::Converting);
    let copy = info.clone();
    assert_eq!(copy.path, info.path);
    assert_eq!(copy.filename, info.filename);
    assert_eq!(copy.size, info.size);
    assert_eq!(copy.status, info.status);
}

#[test]
fn encodings_by_format() {
    assert_eq!(encoding_for(ImageFormat::Jpeg, 90), Ok(Encoding::Jpeg { quality: 90 }));
    assert_eq!(encoding_for(ImageFormat::Avif, 90), Ok(Encoding::Avif));
    assert_eq!(encoding_for(ImageFormat::Png, 90), Ok(Encoding::PngBest));
    assert_eq!(encoding_for(ImageFormat::WebP, 90), Ok(Encoding::WebPLossless));
    assert_eq!(encoding_for(ImageFormat::Gif, 90), Ok(Encoding::Gif { speed: 27 }));
    assert_eq!(encoding_for(ImageFormat::OpenExr, 90), Ok(Encoding::OpenExr));
}

#[test]
fn gif_speed_is_three_per_full_ten() {
    assert_eq!(encoding_for(ImageFormat::Gif, 0), Ok(Encoding::Gif { speed: 0 }));
    assert_eq!(encoding_for(ImageFormat::Gif, 9), Ok(Encoding::Gif { speed: 0 }));
    assert_eq!(encoding_for(ImageFormat::Gif, 10), Ok(Encoding::Gif { speed: 3 }));
    assert_eq!(encoding_for(ImageFormat::Gif, 99), Ok(Encoding::Gif { speed: 27 }));
    assert_eq!(encoding_for(ImageFormat::Gif, 100), Ok(Encoding::Gif { speed: 30 }));
    assert_eq!(encoding_for(ImageFormat::Gif, 255), Ok(Encoding::Gif { speed: 75 }));
}

#[test]
fn unsupported_format_is_handed_back() {
    assert_eq!(
        encoding_for(ImageFormat::Ico, 90),
        Err(UnsupportedFormat { format: ImageFormat::Ico })
    );
    assert_eq!(
        encoding_for(ImageFormat::Bmp, 1),
        Err(UnsupportedFormat { format: ImageFormat::Bmp })
    );
    assert_eq!(
        encoding_for(ImageFormat::Tiff, 1),
        Err(UnsupportedFormat { format: ImageFormat::Tiff })
    );
}

#[test]
fn pixel_layouts() {
    assert_eq!(Encoding::Jpeg { quality: 1 }.layout(), PixelLayout::Rgb8);
    assert_eq!(Encoding::Avif.layout(), PixelLayout::Rgba8);
    assert_eq!(Encoding::PngBest.layout(), PixelLayout::Rgba8);
    assert_eq!(Encoding::WebPLossless.layout(), PixelLayout::Rgba8);
    assert_eq!(Encoding::Gif { speed: 3 }.layout(), PixelLayout::Rgba8);
    assert_eq!(Encoding::OpenExr.layout(), PixelLayout::Rgba32F);
}

#[test]
fn rotations() {
    assert_eq!(rotation_for(90), Ok(Rotation::Quarter));
    assert_eq!(rotation_for(180), Ok(Rotation::Half));
    assert_eq!(rotation_for(270), Ok(Rotation::ThreeQuarters));
    assert_eq!(rotation_for(0), Err(InvalidAngle { degrees: 0 }));
    assert_eq!(rotation_for(45), Err(InvalidAngle { degrees: 45 }));
    assert_eq!(rotation_for(-90), Err(InvalidAngle { degrees: -90 }));
    assert_eq!(rotation_for(360), Err(InvalidAngle { degrees: 360 }));
}

#[test]
fn completion_becomes_a_status_update() {
    assert_eq!(
        completion_action(4, Ok(())),
        Action::UpdateImageStatus { index: 4, status: ImageStatus::Completed }
    );
    assert_eq!(
        completion_action(0, Err(String::from("unsupported format"))),
        Action::UpdateImageStatus {
            index: 0,
            status: ImageStatus::Error(String::from("unsupported format")),
        }
    );
}

#[test]
fn options_panel_has_three_sections_and_ignores_input() {
    let mut panel = OptionsPanel::new();
    assert_eq!(panel, OptionsPanel::default());
    assert_eq!(panel.sections(), vec!["Output Format", "Resize Options", "Quality/Compression"]);
    assert_eq!(SECTION_HEIGHT, 3);
    let keymap = Keymap::new();
    assert_eq!(panel.handle_events(&keymap, Some(Event::Tick)), None);
    assert_eq!(panel.handle_events(&keymap, None), None);
    assert_eq!(panel.update(Action::Quit), None);
    assert_eq!(panel, OptionsPanel::new());
}

#[test]
fn border_follows_focus() {
    assert_eq!(border_role(true), BorderRole::Focused);
    assert_eq!(border_role(false), BorderRole::Default);
}
