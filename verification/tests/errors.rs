use sdl_wrapper::{IndexError, InitError, PresentationError, SaveImageError};

#[test]
fn bare_text_becomes_an_sdl_init_error() {
    let e = InitError::from(String::from("No available video device"));
    assert_eq!(
        e,
        InitError::Sdl2InitError(String::from("No available video device"))
    );
}

#[test]
fn bare_text_becomes_a_canvas_copy_error() {
    let e = PresentationError::from(String::from("Invalid texture"));
    assert_eq!(e, PresentationError::CanvasCopy(String::from("Invalid texture")));
}

#[test]
fn init_error_messages() {
    assert_eq!(
        InitError::Sdl2InitError(String::from("no display")).message(),
        "no display"
    );
    assert_eq!(
        InitError::WindowBuildError(String::from("Window width (2147483648) is too high."))
            .message(),
        "failed to build the sdl2 window"
    );
    assert_eq!(
        InitError::CanvasBuildError(String::from("Couldn't find matching render driver"))
            .message(),
        "failed to create the sdl2 canvas from the window for internal drawing"
    );
}

#[test]
fn init_error_keeps_the_reported_cause() {
    assert_eq!(InitError::Sdl2InitError(String::from("a")).cause(), "a");
    assert_eq!(InitError::WindowBuildError(String::from("b")).cause(), "b");
    assert_eq!(InitError::CanvasBuildError(String::from("c")).cause(), "c");
}

#[test]
fn presentation_error_messages_are_the_reported_text() {
    assert_eq!(PresentationError::CanvasCopy(String::from("copy")).message(), "copy");
    assert_eq!(
        PresentationError::TextureUpdate(String::from("update")).message(),
        "update"
    );
    assert_eq!(
        PresentationError::TextureValue(String::from("value")).message(),
        "value"
    );
    assert_eq!(
        PresentationError::SaveCanvasBMP(String::from("bmp")).message(),
        "bmp"
    );
}

#[test]
fn save_image_error_message_is_the_reported_text() {
    assert_eq!(
        SaveImageError::SaveBMP(String::from("The image format could not be determined"))
            .message(),
        "The image format could not be determined"
    );
}

#[test]
fn index_error_names_position_and_dimensions() {
    let mut s = sdl_wrapper::ScreenContextManager::new(8, 6).unwrap();
    let e = s.plot_pixel(8, 2).unwrap_err();
    assert_eq!(e, IndexError { x: 8, y: 2, width: 8, height: 6 });
    assert_eq!(e.x, 8);
    assert_eq!(e.y, 2);
    assert_eq!(e.width, 8);
    assert_eq!(e.height, 6);
}
