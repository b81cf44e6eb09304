use litert::lm::error::Error as LmError;
use litert::lm::input::{inputs_to_content_json, Input};
use litert::lm::json::json_escape;
use litert::lm::sampler::{Sampler, SamplerParams};

#[test]
fn input_constructors() {
    assert!(matches!(Input::text("hi"), Input::Text("hi")));
    let bytes = [1u8, 2, 3];
    assert!(matches!(Input::image(&bytes), Input::Image(b) if b == &bytes[..]));
    assert!(matches!(Input::audio(&bytes), Input::Audio(b) if b == &bytes[..]));
}

#[test]
fn input_to_raw() {
    let t = Input::text("héllo").to_raw();
    assert_eq!(t.type_, 0);
    assert_eq!(t.size, 6); // UTF-8 bytes
    assert_eq!(t.data.unwrap(), "héllo".as_bytes());

    let img = [9u8; 10];
    let r = Input::image(&img).to_raw();
    assert_eq!((r.type_, r.size), (1, 10));
    assert_eq!(r.data.unwrap(), &img[..]);

    let r = Input::ImageEnd.to_raw();
    assert_eq!((r.type_, r.size), (2, 0));
    assert!(r.data.is_none());

    let snd = [7u8; 3];
    let r = Input::audio(&snd).to_raw();
    assert_eq!((r.type_, r.size), (3, 3));

    let r = Input::AudioEnd.to_raw();
    assert_eq!((r.type_, r.size), (4, 0));
    assert!(r.data.is_none());
}

#[test]
fn content_json_examples() {
    let img = [0u8; 4];
    let inputs = [
        Input::text("Describe this"),
        Input::image(&img),
        Input::ImageEnd,
        Input::audio(&img),
        Input::AudioEnd,
    ];
    assert_eq!(
        inputs_to_content_json(&inputs),
        r#"[{"type":"text","text":"Describe this"},{"type":"image"},{"type":"audio"}]"#
    );
    assert_eq!(inputs_to_content_json(&[]), "[]");
    assert_eq!(inputs_to_content_json(&[Input::ImageEnd, Input::AudioEnd]), "[]");
    assert_eq!(
        inputs_to_content_json(&[Input::ImageEnd, Input::image(&img)]),
        r#"[{"type":"image"}]"#
    );
}

#[test]
fn content_json_escapes_text() {
    assert_eq!(
        inputs_to_content_json(&[Input::text("say \"hi\"\n")]),
        r#"[{"type":"text","text":"say \"hi\"\n"}]"#
    );
}

#[test]
fn json_escape_like_serde_json() {
    assert_eq!(json_escape(""), "\"\"");
    assert_eq!(json_escape("plain"), "\"plain\"");
    assert_eq!(json_escape("a\"b\\c"), r#""a\"b\\c""#);
    assert_eq!(json_escape("\u{8}\u{c}\n\r\t"), r#""\b\f\n\r\t""#);
    assert_eq!(json_escape("\u{1}\u{1f}"), r#""\u0001\u001f""#);
    assert_eq!(json_escape("\u{7f}é/"), "\"\u{7f}é/\"");
    assert_eq!(json_escape("日本"), "\"日本\"");
}

#[test]
fn sampler_tags() {
    assert_eq!(Sampler::TopK.to_raw(), 1);
    assert_eq!(Sampler::TopP.to_raw(), 2);
    assert_eq!(Sampler::Greedy.to_raw(), 3);
}

#[test]
fn sampler_defaults() {
    let p = SamplerParams::default().to_raw();
    assert_eq!(p.type_, Sampler::TopK.to_raw());
    assert_eq!(p.top_k, 40);
    assert_eq!(f32::from_bits(p.top_p), 0.95f32);
    assert_eq!(f32::from_bits(p.temperature), 0.8f32);
    assert_eq!(p.seed, 0);
}

#[test]
fn sampler_builders() {
    let p = SamplerParams::default()
        .top_k(40)
        .top_p(0.95f32.to_bits())
        .temperature(0.7f32.to_bits())
        .seed(42);
    let r = p.to_raw();
    assert_eq!(r.type_, Sampler::TopP.to_raw());
    assert_eq!(r.top_k, 40);
    assert_eq!(f32::from_bits(r.temperature), 0.7f32);
    assert_eq!(r.seed, 42);

    let q = p.top_k(8);
    let rq = q.to_raw();
    assert_eq!(rq.type_, Sampler::TopK.to_raw());
    assert_eq!(rq.top_k, 8);
    assert_eq!(rq.top_p, r.top_p);

    let g = q.greedy();
    let rg = g.to_raw();
    assert_eq!(rg.type_, Sampler::Greedy.to_raw());
    assert_eq!(rg.top_k, 8);
    // temperature and seed leave the strategy alone
    assert_eq!(g.temperature(1).seed(2).to_raw().type_, Sampler::Greedy.to_raw());
}

#[test]
fn sampler_to_raw() {
    let p = SamplerParams::default().greedy().seed(7);
    let d = SamplerParams::default().to_raw();
    let r = p.to_raw();
    assert_eq!(r.type_, 3);
    assert_eq!(r.top_k, 40);
    assert_eq!(r.top_p, d.top_p);
    assert_eq!(r.temperature, d.temperature);
    assert_eq!(r.seed, 7);
    assert_eq!(d.type_, 1);
}

#[test]
fn lm_error_variants() {
    let e = LmError::GenerationFailed(String::from("boom"));
    assert!(matches!(e, LmError::GenerationFailed(ref m) if m == "boom"));
    assert!(matches!(LmError::EngineCreationFailed, LmError::EngineCreationFailed));
}

// Reads a JSON string literal back (the escapes `json_escape` writes).
fn unescape(lit: &str) -> String {
    let body: Vec<char> = lit[1..lit.len() - 1].chars().collect();
    let mut out = String::new();
    let mut i = 0;
    while i < body.len() {
        if body[i] == '\\' {
            match body[i + 1] {
                '"' => out.push('"'),
                '\\' => out.push('\\'),
                'b' => out.push('\u{8}'),
                'f' => out.push('\u{c}'),
                'n' => out.push('\n'),
                'r' => out.push('\r'),
                't' => out.push('\t'),
                'u' => {
                    let hex: String = body[i + 2..i + 6].iter().collect();
                    out.push(char::from_u32(u32::from_str_radix(&hex, 16).unwrap()).unwrap());
                    i += 4;
                }
                other => panic!("bad escape {other}"),
            }
            i += 2;
        } else {
            out.push(body[i]);
            i += 1;
        }
    }
    out
}

#[test]
fn json_escape_round_trip() {
    for s in ["", "plain", "q\"b\\s", "\u{0}\u{1}\u{1f}\u{7f}", "tab\there\r\n", "ünï\u{8}cödé"] {
        let lit = json_escape(s);
        assert!(lit.starts_with('"') && lit.ends_with('"'));
        assert_eq!(unescape(&lit), s);
    }
}
