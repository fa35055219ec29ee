use thumbor::endpoint::{filters_string, FitIn, HAlignment, ResponseMode, Trim, VAlignment};
use thumbor::filter::{Color, Format, Radius};
use thumbor::metadata::FocalPoint;
use thumbor::{Endpoint, Error, Filter, Point, Rect, Server};

const IMAGE: &str = "path/to/my/image.jpg";

fn unsafe_server() -> Server {
    Server::new_unsafe("http://localhost:8888")
}

#[test]
fn point_text_and_arithmetic() {
    let p = Point::new(3, -4);
    assert_eq!(p.to_string(), "3x-4");
    assert_eq!(p + Point::new(1, 1), Point::new(4, -3));
    assert_eq!(p - Point::new(1, 1), Point::new(2, -5));
    assert_eq!(p * 3, Point::new(9, -12));
    assert_eq!(Point::new(7, -7) / 2, Point::new(3, -3));
    assert_eq!(p.flip_x(), Point::new(-3, -4));
    assert_eq!(p.flip_y(), Point::new(3, 4));
    assert_eq!(Point::from(5), Point::new(5, 5));
    assert_eq!(Point::from([1, 2]), Point::new(1, 2));
    assert_eq!(Point::from((1, 2)), Point::new(1, 2));
}

#[test]
fn rect_is_normalized_whatever_the_corner_order() {
    let a = Point::new(10, -5);
    let b = Point::new(-20, 30);
    let r1 = Rect::from_points(a, b);
    let r2 = Rect::from_points(b, a);
    assert_eq!(r1, r2);
    assert_eq!(r1.to_string(), "-20x-5:10x30");
    assert_eq!(r2.to_string(), "-20x-5:10x30");
    assert_eq!(Rect::new(5, 6, 1, 2).to_string(), "1x2:5x6");
    assert_eq!(Rect::from((5, 6, 1, 2)), Rect::new(1, 2, 5, 6));
    assert_eq!(Rect::from([5, 6, 1, 2]), Rect::new(1, 2, 5, 6));
    assert_eq!(Rect::from((a, b)), r1);
}

#[test]
fn rect_width_is_horizontal_and_height_vertical() {
    let r = Rect::new(0, 0, 300, 200);
    assert_eq!(r.width(), 300);
    assert_eq!(r.height(), 200);
    assert_eq!(r.left_top(), Point::new(0, 0));
    assert_eq!(r.right_bottom(), Point::new(300, 200));
}

#[test]
fn rect_center_and_from_center() {
    assert_eq!(Rect::new(0, 0, 10, 5).center(), Point::new(5, 2));
    assert_eq!(Rect::new(-5, -3, 0, 0).center(), Point::new(-2, -1));
    assert_eq!(
        Rect::new(i32::MIN, i32::MIN, i32::MAX, i32::MAX).center(),
        Point::new(0, 0)
    );
    let r = Rect::from_center(Point::new(100, 50), 21, 10);
    assert_eq!(r, Rect::new(90, 45, 110, 55));
    assert_eq!(Rect::from_center(Point::new(0, 0), -4, 4), Rect::new(-2, -2, 2, 2));
}

#[test]
fn extreme_coordinates_are_written_in_full() {
    let r = Rect::new(i32::MIN, 0, i32::MAX, -1);
    assert_eq!(r.to_string(), "-2147483648x-1:2147483647x0");
}

#[test]
fn colors_are_zero_padded_lowercase_hex_or_names() {
    assert_eq!(Color::Rgb(0, 15, 255).to_string(), "#000fff");
    assert_eq!(Color::Rgb(171, 205, 239).to_string(), "#abcdef");
    assert_eq!(Color::Name("red".to_string()).to_string(), "red");
}

#[test]
fn radius_forms() {
    assert_eq!(Radius::Circle(20).to_string(), "20");
    assert_eq!(Radius::Ellipsis(20, 10).to_string(), "20|10");
}

#[test]
fn blur_omits_an_unset_sigma() {
    let f = Filter::Blur { radius: 7, sigma: None };
    assert_eq!(f.to_string(), "blur(7)");
    let f = Filter::Blur { radius: 7, sigma: Some(2) };
    assert_eq!(f.to_string(), "blur(7,2)");
}

#[test]
fn watermark_omits_unset_ratios() {
    let f = Filter::Watermark {
        image_url: "logo.png".to_string(),
        x: -10,
        y: 20,
        alpha: 50,
        w_ratio: None,
        h_ratio: None,
    };
    assert_eq!(f.to_string(), "watermark(logo.png,-10,20,50)");
    let f = Filter::Watermark {
        image_url: "logo.png".to_string(),
        x: 0,
        y: 0,
        alpha: 0,
        w_ratio: Some(30),
        h_ratio: Some(40),
    };
    assert_eq!(f.to_string(), "watermark(logo.png,0,0,0,30,40)");
}

#[test]
fn flags_add_a_one_only_when_set() {
    let red = || Color::Name("red".to_string());
    let f = Filter::Filling { color: red(), fill_transparent: true };
    assert_eq!(f.to_string(), "filling(red,1)");
    let f = Filter::Filling { color: red(), fill_transparent: false };
    assert_eq!(f.to_string(), "filling(red)");
    let f = Filter::RoundCorners {
        radius: Radius::Ellipsis(20, 10),
        color: Color::Rgb(255, 0, 0),
        transparent: true,
    };
    assert_eq!(f.to_string(), "roundcorners(20|10,#ff0000,1)");
    let f = Filter::RoundCorners {
        radius: Radius::Circle(5),
        color: red(),
        transparent: false,
    };
    assert_eq!(f.to_string(), "roundcorners(5,red)");
}

#[test]
fn filters_without_arguments() {
    assert_eq!(Filter::Grayscale.to_string(), "grayscale()");
    assert_eq!(Filter::AutoJPG.to_string(), "autojpg()");
    assert_eq!(Filter::StripEXIF.to_string(), "stripexif()");
    assert_eq!(Filter::StripICC.to_string(), "stripicc()");
    assert_eq!(Filter::NoUpscale.to_string(), "noupscale()");
    assert_eq!(Filter::ExtractFocalPoints.to_string(), "extractfocalpoints()");
    assert_eq!(Filter::Upscale.args(), Vec::<String>::new());
}

#[test]
fn filters_with_numbers_and_values() {
    assert_eq!(Filter::Brightness(-128).to_string(), "brightness(-128)");
    assert_eq!(Filter::Contrast(127).to_string(), "contrast(127)");
    assert_eq!(Filter::MaxBytes(4_294_967_295).to_string(), "maxbytes(4294967295)");
    assert_eq!(Filter::Rotate(90).to_string(), "rotate(90)");
    assert_eq!(Filter::Quality(0).to_string(), "quality(0)");
    assert_eq!(
        Filter::Rgb { r_amount: -10, g_amount: 0, b_amount: 10 }.to_string(),
        "rgb(-10,0,10)"
    );
    assert_eq!(Filter::Format(Format::Webp).to_string(), "format(webp)");
    assert_eq!(Filter::Format(Format::Heic).to_string(), "format(heic)");
    assert_eq!(
        Filter::BackgroundColor(Color::Rgb(1, 2, 3)).to_string(),
        "backgroundcolor(#010203)"
    );
    assert_eq!(Filter::Focal(Rect::new(1, 2, 3, 4)).to_string(), "focal(1x2:3x4)");
    assert_eq!(Filter::Proportion("0.5".to_string()).to_string(), "proportion(0.5)");
    assert_eq!(
        Filter::Sharpen {
            sharpen_amount: "2".to_string(),
            sharpen_radius: "1.5".to_string(),
            luminance_only: true,
        }
        .to_string(),
        "sharpen(2,1.5,true)"
    );
}

#[test]
fn convolution_joins_the_matrix_with_semicolons() {
    let f = Filter::Convolution {
        matrix_items: vec![1, -2, 3, 0],
        number_of_columns: 2,
        should_normalize: false,
    };
    assert_eq!(f.to_string(), "convolution(1;-2;3;0,2,false)");
}

#[test]
fn custom_filter_keeps_its_name_and_arguments() {
    let f = Filter::Custom {
        name: "my_filter".to_string(),
        args: vec!["a".to_string(), "b c".to_string()],
    };
    assert_eq!(f.to_string(), "my_filter(a,b c)");
    assert_eq!(f.name(), "my_filter");
    let f = Filter::Custom { name: "none".to_string(), args: vec![] };
    assert_eq!(f.to_string(), "none()");
}

#[test]
fn unsafe_mode_writes_unsafe_whatever_the_options() {
    let server = unsafe_server();
    let bare = server.endpoint_builder().build();
    assert_eq!(bare.to_path(IMAGE), "/unsafe/path/to/my/image.jpg");
    assert_eq!(bare.to_url(IMAGE), "http://localhost:8888/unsafe/path/to/my/image.jpg");
    let full = server
        .endpoint_builder()
        .trim(Trim::BottomRight)
        .smart(true)
        .filters(vec![Filter::Grayscale])
        .build();
    assert_eq!(
        full.to_path(IMAGE),
        "/unsafe/trim:bottom-right/smart/filters:grayscale()/path/to/my/image.jpg"
    );
}

#[test]
fn every_option_in_its_fixed_order() {
    let e = unsafe_server()
        .endpoint_builder()
        .filters(vec![Filter::Brightness(10), Filter::Contrast(20)])
        .smart(true)
        .v_align(VAlignment::Top)
        .h_align(HAlignment::Left)
        .resize(Point::new(-300, 200))
        .fit_in(FitIn::Adaptive)
        .crop(Rect::new(10, 20, 30, 40))
        .trim(Trim::TopLeft)
        .response(ResponseMode::Debug)
        .build();
    assert_eq!(
        e.build_path(IMAGE),
        "debug/trim:top-left/10x20:30x40/adaptive-fit-in/-300x200/left/top/smart/filters:brightness(10):contrast(20)/path/to/my/image.jpg"
    );
}

#[test]
fn unset_options_keep_the_order_of_the_rest() {
    let server = unsafe_server();
    let e = server
        .endpoint_builder()
        .response(ResponseMode::Metadata)
        .resize(Point::new(300, 200))
        .v_align(VAlignment::Bottom)
        .build();
    assert_eq!(e.build_path(IMAGE), "meta/300x200/bottom/path/to/my/image.jpg");
    let fewer = server
        .endpoint_builder()
        .response(ResponseMode::Metadata)
        .v_align(VAlignment::Bottom)
        .build();
    assert_eq!(fewer.build_path(IMAGE), "meta/bottom/path/to/my/image.jpg");
}

#[test]
fn empty_filter_list_adds_no_segment() {
    let server = unsafe_server();
    let e = server.endpoint_builder().filters(vec![]).build();
    assert_eq!(e.build_path(IMAGE), IMAGE);
    let e = server
        .endpoint_builder()
        .filters(vec![Filter::Brightness(10), Filter::Contrast(20)])
        .build();
    assert_eq!(
        e.build_path(IMAGE),
        "filters:brightness(10):contrast(20)/path/to/my/image.jpg"
    );
}

#[test]
fn encoding_twice_gives_the_same_path() {
    let server = Server::new("http://my.server.com", "my-security-key").unwrap();
    let e = server
        .endpoint_builder()
        .fit_in(FitIn::Full)
        .h_align(HAlignment::Center)
        .build();
    assert_eq!(e.to_path(IMAGE), e.to_path(IMAGE));
    assert_eq!(e.build_path(IMAGE), e.build_path(IMAGE));
    assert_eq!(e.build_path(IMAGE), "full-fit-in/center/path/to/my/image.jpg");
}

#[test]
fn a_setter_called_twice_keeps_the_last_value() {
    let e = unsafe_server()
        .endpoint_builder()
        .resize(Point::new(1, 1))
        .resize(Point::new(300, 200))
        .fit_in(FitIn::Full)
        .fit_in(FitIn::Default)
        .filters(vec![Filter::Grayscale])
        .filters(vec![Filter::Upscale])
        .smart(true)
        .smart(false)
        .build();
    assert_eq!(e.resize, Some(Point::new(300, 200)));
    assert_eq!(e.build_path(IMAGE), "fit-in/300x200/filters:upscale()/path/to/my/image.jpg");
}

#[test]
fn signed_path_covers_the_canonical_path() {
    let server = Server::new("http://my.server.com", "my-security-key").unwrap();
    let e: Endpoint = server.endpoint_builder().resize(Point::new(300, 200)).build();
    assert_eq!(
        e.to_url("my.server.com/some/path/to/image.jpg"),
        "http://my.server.com/8ammJH8D-7tXy6kU3lTvoXlhu4o=/300x200/my.server.com/some/path/to/image.jpg"
    );
    let other = Server::new("http://my.server.com", "another-key").unwrap();
    let e2 = other.endpoint_builder().resize(Point::new(300, 200)).build();
    assert_ne!(
        e.to_path("my.server.com/some/path/to/image.jpg"),
        e2.to_path("my.server.com/some/path/to/image.jpg")
    );
}

#[test]
fn any_key_length_is_accepted() {
    assert!(Server::new("http://a.b", "").is_ok());
    let long = "k".repeat(500);
    let server = Server::new("http://a.b", &long).unwrap();
    let path = server.endpoint_builder().build().to_path("x.jpg");
    assert!(path.starts_with('/'));
    assert!(path.ends_with("/x.jpg"));
    assert_eq!(path.len(), 1 + 28 + 1 + 5);
}

#[test]
fn a_malformed_origin_is_a_parse_error() {
    let e = Server::new_unsafe("not a url").endpoint_builder().build();
    assert_eq!(e.to_url(IMAGE), "not a url/unsafe/path/to/my/image.jpg");
    assert!(matches!(e.build_uri(IMAGE), Err(Error::UrlParseError(_))));
}

#[test]
fn a_non_hierarchical_origin_cannot_be_a_base() {
    let e = Server::new_unsafe("mailto:someone").endpoint_builder().build();
    assert!(matches!(e.build_uri(IMAGE), Err(Error::UrlCannotBeABase)));
}

#[test]
fn parsed_url_keeps_origin_and_path() {
    let e = unsafe_server().endpoint_builder().smart(true).build();
    let url = e.build_uri(IMAGE).unwrap();
    assert_eq!(url.as_str(), "http://localhost:8888/unsafe/smart/path/to/my/image.jpg");
}

#[test]
fn focal_point_bounds() {
    let f = FocalPoint { x: 100, y: 50, height: 10, width: 20 };
    assert_eq!(f.bounds(), Some(Rect::new(90, 45, 110, 55)));
    let f = FocalPoint { x: i32::MAX, y: 0, height: 0, width: 4 };
    assert_eq!(f.bounds(), None);
}

#[test]
fn filter_block_is_none_for_an_empty_list() {
    assert_eq!(filters_string(&vec![]), None);
    assert_eq!(
        filters_string(&vec![Filter::Brightness(10), Filter::Contrast(20)]),
        Some("filters:brightness(10):contrast(20)".to_string())
    );
}

#[test]
fn a_hierarchical_origin_gives_a_url() {
    let e = unsafe_server().endpoint_builder().build();
    assert!(e.build_uri(IMAGE).is_ok());
}
