use raytracing::cfg_loader::{
    bmx_bool, bmx_u32, from_text, Block, CfgHeader, ConfigError, LineError, PixelFormat,
};
use raytracing::renderer::BackendConfig;

fn text(v: &[char]) -> String {
    v.iter().collect()
}

fn items(v: &Option<Vec<Vec<char>>>) -> Option<Vec<String>> {
    v.as_ref().map(|xs| xs.iter().map(|x| text(x)).collect())
}

const SAMPLE: &str = "A test scene.\n\
\n\
[target]\n\
@name: sphere.png\n\
@pixel: rgb16\n\
@resolution: (320, 240)\n\
[renderer]\n\
@backend: cpu_st\n\
@bvh_acc: False\n\
@max_depth: 12\n\
@spp: 64\n\
[camera]\n\
@pos: (0.0, 0.5, 0)\n\
@dir: (0, 0, 1)\n\
@fov: 30.5\n\
@viewport: (1.6, 1.2)\n\
[scene]\n\
{ \"background\": {},\n\
  \"entities\": [] }\n";

fn parse(s: &str) -> CfgHeader {
    match from_text(s) {
        Ok(h) => h,
        Err(e) => panic!("unexpected error {:?}", e),
    }
}

#[test]
fn reads_every_block() {
    let h = parse(SAMPLE);
    assert_eq!(text(&h.comments), "A test scene.\n");
    assert_eq!(text(&h.target_name), "sphere.png");
    assert_eq!(h.target_pixel, PixelFormat::Rgb16);
    assert_eq!(items(&h.target_resolution), Some(vec!["320".to_string(), "240".to_string()]));
    assert_eq!(h.renderer_backend, BackendConfig::CPUDrivenS);
    assert!(!h.renderer_bvh_acc);
    assert_eq!(h.renderer_max_depth, 12);
    assert_eq!(h.renderer_spp, 64);
    assert_eq!(
        items(&h.camera_pos),
        Some(vec!["0.0".to_string(), "0.5".to_string(), "0".to_string()])
    );
    assert_eq!(items(&h.camera_dir), Some(vec!["0".to_string(), "0".to_string(), "1".to_string()]));
    assert_eq!(h.camera_fov.as_ref().map(|v| text(v)), Some("30.5".to_string()));
    assert_eq!(items(&h.camera_viewport), Some(vec!["1.6".to_string(), "1.2".to_string()]));
    assert_eq!(text(&h.scene), "{ \"background\": {},\"entities\": [] }");
}

#[test]
fn defaults_when_only_scene_given() {
    let h = parse("[scene]\n{}");
    assert!(h.comments.is_empty());
    assert_eq!(text(&h.target_name), "out.png");
    assert_eq!(h.target_pixel, PixelFormat::Rgb8);
    assert_eq!(h.target_resolution, None);
    assert_eq!(h.renderer_backend, BackendConfig::CPUDrivenS);
    assert!(!h.renderer_bvh_acc);
    assert_eq!(h.renderer_max_depth, 8);
    assert_eq!(h.renderer_spp, 8);
    assert_eq!(h.camera_pos, None);
    assert_eq!(h.camera_fov, None);
    assert_eq!(text(&h.scene), "{}");
}

#[test]
fn header_with_spaces_and_crlf_lines() {
    let h = parse("  [ renderer ]  \r\n@spp: 3\r\n[scene]\r\n{}\r\n");
    assert_eq!(h.renderer_spp, 3);
    assert_eq!(text(&h.scene), "{}");
}

#[test]
fn multi_thread_backend_is_read() {
    let h = parse("[renderer]\n@backend: cpu_mt( 4 )\n[scene]\n{}");
    assert_eq!(h.renderer_backend, BackendConfig::CPUDrivenM(4));
}

#[test]
fn zero_threads_refused() {
    let r = from_text("[renderer]\n@backend: cpu_mt(0)\n[scene]\n{}");
    assert_eq!(r.err(), Some(ConfigError::Line(2, LineError::ZeroThreads)));
}

#[test]
fn unknown_backend_refused() {
    let r = from_text("[renderer]\n@backend: gpu\n[scene]\n{}");
    assert_eq!(r.err(), Some(ConfigError::Line(2, LineError::BadValue)));
}

#[test]
fn unknown_block_reports_its_line() {
    let r = from_text("\n\n[lights]\n[scene]\n{}");
    assert_eq!(r.err(), Some(ConfigError::Line(3, LineError::UnknownBlock)));
}

#[test]
fn line_without_pair_refused() {
    let r = from_text("[camera]\nfov = 3\n[scene]\n{}");
    assert_eq!(r.err(), Some(ConfigError::Line(2, LineError::MalformedPair)));
}

#[test]
fn unknown_key_refused() {
    let r = from_text("[target]\n@depth: 3\n[scene]\n{}");
    assert_eq!(r.err(), Some(ConfigError::Line(2, LineError::UnknownKey)));
}

#[test]
fn bad_pixel_format_refused() {
    let r = from_text("[target]\n@pixel: rgba8\n[scene]\n{}");
    assert_eq!(r.err(), Some(ConfigError::Line(2, LineError::BadValue)));
}

#[test]
fn short_tuple_refused() {
    let r = from_text("[camera]\n@pos: (1, 2)\n[scene]\n{}");
    assert_eq!(r.err(), Some(ConfigError::Line(2, LineError::BadValue)));
}

#[test]
fn first_error_wins() {
    let r = from_text("[target]\n@pixel: x\n@bogus: 1\n[scene]\n{}");
    assert_eq!(r.err(), Some(ConfigError::Line(2, LineError::BadValue)));
}

#[test]
fn missing_scene_refused() {
    assert_eq!(from_text("[target]\n@name: a.png\n").err(), Some(ConfigError::EmptyScene));
    assert_eq!(from_text("").err(), Some(ConfigError::EmptyScene));
    assert_eq!(from_text("[scene]\n   \n").err(), Some(ConfigError::EmptyScene));
}

#[test]
fn pair_found_after_leading_text() {
    let h = parse("[target]\nset @name: b.png\n[scene]\n{}");
    assert_eq!(text(&h.target_name), "b.png");
}

#[test]
fn bool_values_any_case() {
    assert_eq!(bmx_bool("true"), Ok(true));
    assert_eq!(bmx_bool("TRUE"), Ok(true));
    assert_eq!(bmx_bool("False"), Ok(false));
    assert!(bmx_bool("yes").is_err());
    assert!(bmx_bool(" true").is_err());
}

#[test]
fn u32_values() {
    assert_eq!(bmx_u32("42"), Ok(42));
    assert_eq!(bmx_u32("+7"), Ok(7));
    assert_eq!(bmx_u32("007"), Ok(7));
    assert_eq!(bmx_u32("4294967295"), Ok(u32::MAX));
    assert!(bmx_u32("4294967296").is_err());
    assert!(bmx_u32("").is_err());
    assert!(bmx_u32("+").is_err());
    assert!(bmx_u32("-1").is_err());
    assert!(bmx_u32("12a").is_err());
    assert!(bmx_u32(" 1").is_err());
}

#[test]
fn u32_agrees_with_std() {
    for s in ["0", "+0", "99999", "4294967295", "4294967296", "1_000", "++1", "", "9x"] {
        assert_eq!(bmx_u32(s).ok(), s.parse::<u32>().ok(), "{}", s);
    }
}

#[test]
fn block_kinds_are_distinct() {
    assert_ne!(Block::Preamble, Block::Scene);
}
