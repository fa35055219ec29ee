use vstd::prelude::*;

use crate::geometry::Rect;
use crate::text::{
    dec_int, hex_byte, int_text, join, owned, push_char, push_hex_byte, push_joined, push_str,
    views,
};

verus! {

/// A color argument: an RGB triple or a color name.
#[derive(Debug, Clone, PartialEq, Eq)]
pub enum Color {
    Rgb(u8, u8, u8),
    Name(String),
}

impl Color {
    /// `#rrggbb` in lowercase hexadecimal for a triple; the name itself otherwise.
    pub open spec fn text(&self) -> Seq<char> {
        match self {
            Color::Rgb(r, g, b) => seq!['#'] + hex_byte(*r) + hex_byte(*g) + hex_byte(*b),
            Color::Name(name) => name@,
        }
    }

    pub fn to_string(&self) -> (r: String)
        ensures
            r@ == self.text(),
    {
        match self {
            Color::Rgb(red, green, blue) => {
                let mut r = String::new();
                push_char(&mut r, '#');
                push_hex_byte(&mut r, *red);
                push_hex_byte(&mut r, *green);
                push_hex_byte(&mut r, *blue);
                assert(r@ =~= self.text());
                r
            },
            Color::Name(name) => name.clone(),
        }
    }
}

/// An output image format.
#[derive(Debug, Clone, Copy, PartialEq, Eq, Hash)]
pub enum Format {
    Webp,
    Jpeg,
    Gif,
    Png,
    Avif,
    Heic,
}

impl Format {
    /// The lowercase name of the format.
    pub open spec fn text(self) -> Seq<char> {
        match self {
            Format::Webp => "webp"@,
            Format::Jpeg => "jpeg"@,
            Format::Gif => "gif"@,
            Format::Png => "png"@,
            Format::Avif => "avif"@,
            Format::Heic => "heic"@,
        }
    }

    pub fn as_str(&self) -> (r: &'static str)
        ensures
            r@ == self.text(),
    {
        match self {
            Format::Webp => "webp",
            Format::Jpeg => "jpeg",
            Format::Gif => "gif",
            Format::Png => "png",
            Format::Avif => "avif",
            Format::Heic => "heic",
        }
    }
}

/// The radius of rounded corners: one value, or a horizontal and a vertical one.
#[derive(Debug, Clone, Copy, PartialEq, Eq, Hash)]
pub enum Radius {
    Ellipsis(u32, u32),
    Circle(u32),
}

impl Radius {
    /// `{radius}` for a circle, `{width}|{height}` for an ellipsis.
    pub open spec fn text(self) -> Seq<char> {
        match self {
            Radius::Circle(radius) => dec_int(radius as int),
            Radius::Ellipsis(w, h) => dec_int(w as int) + seq!['|'] + dec_int(h as int),
        }
    }

    pub fn to_string(&self) -> (r: String)
        ensures
            r@ == self.text(),
    {
        match self {
            Radius::Circle(radius) => int_text(*radius as i64),
            Radius::Ellipsis(w, h) => {
                let mut r = int_text(*w as i64);
                push_char(&mut r, '|');
                let hs = int_text(*h as i64);
                push_str(&mut r, hs.as_str());
                assert(r@ =~= self.text());
                r
            },
        }
    }
}

/// The text of a flag argument.
pub open spec fn bool_text(b: bool) -> Seq<char> {
    if b {
        "true"@
    } else {
        "false"@
    }
}

/// A list with the given element, or an empty list.
pub open spec fn optional(v: Option<Seq<char>>) -> Seq<Seq<char>> {
    match v {
        Some(s) => seq![s],
        None => Seq::empty(),
    }
}

/// The base-10 form of an optional number, if there is one.
pub open spec fn opt_dec(v: Option<u8>) -> Option<Seq<char>> {
    match v {
        Some(n) => Some(dec_int(n as int)),
        None => None,
    }
}

/// The literal `1` when the flag is set, nothing when it is not.
pub open spec fn flag_arg(b: bool) -> Seq<Seq<char>> {
    if b {
        seq!["1"@]
    } else {
        Seq::empty()
    }
}

/// The base-10 forms of a list of numbers.
pub open spec fn dec_list(items: Seq<i8>) -> Seq<Seq<char>> {
    items.map_values(|i: i8| dec_int(i as int))
}

/// One step of the image filter pipeline.
///
/// The values of `Proportion` and `Sharpen` that are fractional numbers are
/// held as their decimal text, exactly as it is to appear in the path.
#[derive(Debug, Clone, PartialEq)]
#[allow(inconsistent_fields)]
pub enum Filter {
    AutoJPG,
    BackgroundColor(Color),
    Blur { radius: u8, sigma: Option<u8> },
    Brightness(i8),
    Contrast(i8),
    Convolution { matrix_items: Vec<i8>, number_of_columns: u8, should_normalize: bool },
    Cover,
    Equalize,
    ExtractFocalPoints,
    Filling { color: Color, fill_transparent: bool },
    Focal(Rect),
    Format(Format),
    Grayscale,
    MaxBytes(u32),
    NoUpscale,
    Noise(u8),
    Proportion(String),
    Quality(u8),
    RedEye,
    Rgb { r_amount: i8, g_amount: i8, b_amount: i8 },
    Rotate(u16),
    RoundCorners { radius: Radius, color: Color, transparent: bool },
    Saturation(i8),
    Sharpen { sharpen_amount: String, sharpen_radius: String, luminance_only: bool },
    Stretch,
    StripEXIF,
    StripICC,
    Upscale,
    Watermark {
        image_url: String,
        x: i32,
        y: i32,
        alpha: u8,
        w_ratio: Option<u8>,
        h_ratio: Option<u8>,
    },
    /// A filter given by its name and its arguments, as they are to be written.
    Custom { name: String, args: Vec<String> },
}

impl Filter {
    /// The name token of the filter.
    pub open spec fn name_text(&self) -> Seq<char> {
        match self {
            Filter::AutoJPG => "autojpg"@,
            Filter::BackgroundColor(..) => "backgroundcolor"@,
            Filter::Blur { .. } => "blur"@,
            Filter::Brightness(..) => "brightness"@,
            Filter::Contrast(..) => "contrast"@,
            Filter::Convolution { .. } => "convolution"@,
            Filter::Cover => "cover"@,
            Filter::Equalize => "equalize"@,
            Filter::ExtractFocalPoints => "extractfocalpoints"@,
            Filter::Filling { .. } => "filling"@,
            Filter::Focal(..) => "focal"@,
            Filter::Format(..) => "format"@,
            Filter::Grayscale => "grayscale"@,
            Filter::MaxBytes(..) => "maxbytes"@,
            Filter::NoUpscale => "noupscale"@,
            Filter::Noise(..) => "noise"@,
            Filter::Proportion(..) => "proportion"@,
            Filter::Quality(..) => "quality"@,
            Filter::RedEye => "redeye"@,
            Filter::Rgb { .. } => "rgb"@,
            Filter::Rotate(..) => "rotate"@,
            Filter::RoundCorners { .. } => "roundcorners"@,
            Filter::Saturation(..) => "saturation"@,
            Filter::Sharpen { .. } => "sharpen"@,
            Filter::Stretch => "stretch"@,
            Filter::StripEXIF => "stripexif"@,
            Filter::StripICC => "stripicc"@,
            Filter::Upscale => "upscale"@,
            Filter::Watermark { .. } => "watermark"@,
            Filter::Custom { name, .. } => name@,
        }
    }

    /// The arguments of the filter, in order. Optional trailing arguments
    /// that are unset, and flags that are off, are left out.
    pub open spec fn args_text(&self) -> Seq<Seq<char>> {
        match self {
            Filter::BackgroundColor(color) => seq![color.text()],
            Filter::Blur { radius, sigma } => seq![dec_int(*radius as int)] + optional(
                opt_dec(*sigma),
            ),
            Filter::Brightness(v) => seq![dec_int(*v as int)],
            Filter::Contrast(v) => seq![dec_int(*v as int)],
            Filter::Convolution { matrix_items, number_of_columns, should_normalize } => seq![
                join(dec_list(matrix_items@), ";"@),
                dec_int(*number_of_columns as int),
                bool_text(*should_normalize),
            ],
            Filter::Filling { color, fill_transparent } => seq![color.text()] + flag_arg(
                *fill_transparent,
            ),
            Filter::Focal(rect) => seq![rect.text()],
            Filter::Format(format) => seq![format.text()],
            Filter::MaxBytes(v) => seq![dec_int(*v as int)],
            Filter::Noise(v) => seq![dec_int(*v as int)],
            Filter::Proportion(v) => seq![v@],
            Filter::Quality(v) => seq![dec_int(*v as int)],
            Filter::Rgb { r_amount, g_amount, b_amount } => seq![
                dec_int(*r_amount as int),
                dec_int(*g_amount as int),
                dec_int(*b_amount as int),
            ],
            Filter::Rotate(v) => seq![dec_int(*v as int)],
            Filter::RoundCorners { radius, color, transparent } => seq![
                radius.text(),
                color.text(),
            ] + flag_arg(*transparent),
            Filter::Saturation(v) => seq![dec_int(*v as int)],
            Filter::Sharpen { sharpen_amount, sharpen_radius, luminance_only } => seq![
                sharpen_amount@,
                sharpen_radius@,
                bool_text(*luminance_only),
            ],
            Filter::Watermark { image_url, x, y, alpha, w_ratio, h_ratio } => seq![
                image_url@,
                dec_int(*x as int),
                dec_int(*y as int),
                dec_int(*alpha as int),
            ] + optional(opt_dec(*w_ratio)) + optional(opt_dec(*h_ratio)),
            Filter::Custom { args, .. } => views(args@),
            _ => Seq::empty(),
        }
    }

    /// The encoding `name(arg1,arg2,...)`.
    pub open spec fn text(&self) -> Seq<char> {
        self.name_text() + seq!['('] + join(self.args_text(), seq![',']) + seq![')']
    }
}

/// An unset optional trailing argument leaves no trace: a blur with only a
/// radius encodes as `blur({radius})`, a watermark with no size ratios as
/// `watermark({url},{x},{y},{alpha})`.
pub proof fn unset_trailing_arguments_are_omitted(
    radius: u8,
    image_url: String,
    x: i32,
    y: i32,
    alpha: u8,
)
    ensures
        (Filter::Blur { radius, sigma: None }).text() == "blur"@ + seq!['('] + dec_int(
            radius as int,
        ) + seq![')'],
        (Filter::Watermark { image_url, x, y, alpha, w_ratio: None, h_ratio: None }).text()
            == "watermark"@ + seq!['('] + image_url@ + seq![','] + dec_int(x as int) + seq![',']
            + dec_int(y as int) + seq![','] + dec_int(alpha as int) + seq![')'],
{
    let blur_args = (Filter::Blur { radius, sigma: None }).args_text();
    assert(blur_args =~= seq![dec_int(radius as int)]);
    assert(join(blur_args, seq![',']) == dec_int(radius as int));
    let w = Filter::Watermark { image_url, x, y, alpha, w_ratio: None, h_ratio: None };
    let a = w.args_text();
    assert(a =~= seq![image_url@, dec_int(x as int), dec_int(y as int), dec_int(alpha as int)]);
    assert(a.drop_last().drop_last().drop_last() =~= seq![image_url@]);
    assert(a.drop_last().drop_last() =~= seq![image_url@, dec_int(x as int)]);
    assert(a.drop_last() =~= seq![image_url@, dec_int(x as int), dec_int(y as int)]);
    let c = seq![','];
    assert(join(a.drop_last().drop_last().drop_last(), c) == image_url@);
    assert(join(a.drop_last().drop_last(), c) == image_url@ + c + dec_int(x as int));
    assert(join(a.drop_last(), c) == image_url@ + c + dec_int(x as int) + c + dec_int(y as int));
    assert(join(a, seq![',']) =~= image_url@ + seq![','] + dec_int(x as int) + seq![',']
        + dec_int(y as int) + seq![','] + dec_int(alpha as int));
}

fn bool_string(b: bool) -> (r: String)
    ensures
        r@ == bool_text(b),
{
    if b {
        owned("true")
    } else {
        owned("false")
    }
}

/// Appends the base-10 form of an optional number, if there is one.
fn push_opt(v: &mut Vec<String>, n: Option<u8>)
    ensures
        views(final(v)@) == views(old(v)@) + optional(opt_dec(n)),
{
    if let Some(n) = n {
        v.push(int_text(n as i64));
    }
    assert(views(final(v)@) =~= views(old(v)@) + optional(opt_dec(n)));
}

/// Appends the literal `1` when the flag is set.
fn push_flag(v: &mut Vec<String>, b: bool)
    ensures
        views(final(v)@) == views(old(v)@) + flag_arg(b),
{
    if b {
        v.push(owned("1"));
    }
    assert(views(final(v)@) =~= views(old(v)@) + flag_arg(b));
}

/// A copy of a list of strings.
fn copy_strings(v: &Vec<String>) -> (r: Vec<String>)
    ensures
        views(r@) == views(v@),
{
    let mut r: Vec<String> = Vec::new();
    let mut i: usize = 0;
    while i < v.len()
        invariant
            i <= v.len(),
            views(r@) =~= views(v@).take(i as int),
        decreases v.len() - i,
    {
        let ghost before = r@;
        r.push(v[i].clone());
        assert(views(r@) =~= views(before).push(v@[i as int]@));
        assert(views(v@).take(i + 1) =~= views(v@).take(i as int).push(v@[i as int]@));
        i = i + 1;
    }
    assert(views(v@).take(v.len() as int) =~= views(v@));
    r
}

/// The matrix items joined by `;`.
fn matrix_text(items: &Vec<i8>) -> (r: String)
    ensures
        r@ == join(dec_list(items@), ";"@),
{
    let mut parts: Vec<String> = Vec::new();
    let mut i: usize = 0;
    while i < items.len()
        invariant
            i <= items.len(),
            views(parts@) =~= dec_list(items@).take(i as int),
        decreases items.len() - i,
    {
        let ghost before = parts@;
        parts.push(int_text(items[i] as i64));
        assert(views(parts@) =~= views(before).push(dec_int(items@[i as int] as int)));
        assert(dec_list(items@).take(i + 1) =~= dec_list(items@).take(i as int).push(
            dec_int(items@[i as int] as int),
        ));
        i = i + 1;
    }
    assert(dec_list(items@).take(items.len() as int) =~= dec_list(items@));
    let mut r = String::new();
    push_joined(&mut r, &parts, ";");
    assert(r@ =~= join(dec_list(items@), ";"@));
    r
}

/// A list holding the base-10 form of `n`.
fn one_number(n: i64) -> (r: Vec<String>)
    requires
        n > i64::MIN,
    ensures
        views(r@) == seq![dec_int(n as int)],
{
    let r = vec![int_text(n)];
    assert(views(r@) =~= seq![dec_int(n as int)]);
    r
}

impl Filter {
    /// The name token of the filter.
    pub fn name(&self) -> (r: &str)
        ensures
            r@ == self.name_text(),
    {
        match self {
            Filter::AutoJPG => "autojpg",
            Filter::BackgroundColor(..) => "backgroundcolor",
            Filter::Blur { .. } => "blur",
            Filter::Brightness(..) => "brightness",
            Filter::Contrast(..) => "contrast",
            Filter::Convolution { .. } => "convolution",
            Filter::Cover => "cover",
            Filter::Equalize => "equalize",
            Filter::ExtractFocalPoints => "extractfocalpoints",
            Filter::Filling { .. } => "filling",
            Filter::Focal(..) => "focal",
            Filter::Format(..) => "format",
            Filter::Grayscale => "grayscale",
            Filter::MaxBytes(..) => "maxbytes",
            Filter::NoUpscale => "noupscale",
            Filter::Noise(..) => "noise",
            Filter::Proportion(..) => "proportion",
            Filter::Quality(..) => "quality",
            Filter::RedEye => "redeye",
            Filter::Rgb { .. } => "rgb",
            Filter::Rotate(..) => "rotate",
            Filter::RoundCorners { .. } => "roundcorners",
            Filter::Saturation(..) => "saturation",
            Filter::Sharpen { .. } => "sharpen",
            Filter::Stretch => "stretch",
            Filter::StripEXIF => "stripexif",
            Filter::StripICC => "stripicc",
            Filter::Upscale => "upscale",
            Filter::Watermark { .. } => "watermark",
            Filter::Custom { name, .. } => name.as_str(),
        }
    }

    /// The arguments of the filter, in order.
    pub fn args(&self) -> (r: Vec<String>)
        ensures
            views(r@) == self.args_text(),
    {
        let r = match self {
            Filter::BackgroundColor(color) => vec![color.to_string()],
            Filter::Blur { radius, sigma } => {
                let mut v = one_number(*radius as i64);
                push_opt(&mut v, *sigma);
                v
            },
            Filter::Brightness(v) => one_number(*v as i64),
            Filter::Contrast(v) => one_number(*v as i64),
            Filter::Convolution { matrix_items, number_of_columns, should_normalize } => {
                vec![
                    matrix_text(matrix_items),
                    int_text(*number_of_columns as i64),
                    bool_string(*should_normalize),
                ]
            },
            Filter::Filling { color, fill_transparent } => {
                let mut v = vec![color.to_string()];
                push_flag(&mut v, *fill_transparent);
                v
            },
            Filter::Focal(rect) => vec![rect.to_string()],
            Filter::Format(format) => vec![owned(format.as_str())],
            Filter::MaxBytes(v) => one_number(*v as i64),
            Filter::Noise(v) => one_number(*v as i64),
            Filter::Proportion(v) => vec![v.clone()],
            Filter::Quality(v) => one_number(*v as i64),
            Filter::Rgb { r_amount, g_amount, b_amount } => {
                vec![
                    int_text(*r_amount as i64),
                    int_text(*g_amount as i64),
                    int_text(*b_amount as i64),
                ]
            },
            Filter::Rotate(v) => one_number(*v as i64),
            Filter::RoundCorners { radius, color, transparent } => {
                let mut v = vec![radius.to_string(), color.to_string()];
                push_flag(&mut v, *transparent);
                v
            },
            Filter::Saturation(v) => one_number(*v as i64),
            Filter::Sharpen { sharpen_amount, sharpen_radius, luminance_only } => {
                vec![
                    sharpen_amount.clone(),
                    sharpen_radius.clone(),
                    bool_string(*luminance_only),
                ]
            },
            Filter::Watermark { image_url, x, y, alpha, w_ratio, h_ratio } => {
                let mut v = vec![
                    image_url.clone(),
                    int_text(*x as i64),
                    int_text(*y as i64),
                    int_text(*alpha as i64),
                ];
                push_opt(&mut v, *w_ratio);
                push_opt(&mut v, *h_ratio);
                v
            },
            Filter::Custom { args, .. } => copy_strings(args),
            _ => Vec::new(),
        };
        assert(views(r@) =~= self.args_text());
        r
    }

    /// The encoding `name(arg1,arg2,...)`.
    pub fn to_string(&self) -> (r: String)
        ensures
            r@ == self.text(),
    {
        let mut r = String::new();
        push_str(&mut r, self.name());
        push_char(&mut r, '(');
        let args = self.args();
        push_joined(&mut r, &args, ",");
        push_char(&mut r, ')');
        proof {
            reveal_strlit(",");
            assert(","@ =~= seq![',']);
        }
        assert(r@ =~= self.text());
        r
    }
}

} // verus!
