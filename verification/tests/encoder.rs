use weadless::encoder::{EncoderChoice, EncoderSupport, ENCODER_COUNT};

fn support(vaapi: bool, nvenc: bool, x264: bool, libav: bool) -> EncoderSupport {
    EncoderSupport { vaapi, nvenc, x264, libav }
}

#[test]
fn the_preference_list_runs_from_hardware_to_fallback() {
    assert_eq!(
        EncoderChoice::candidates(),
        vec![EncoderChoice::Vaapi, EncoderChoice::Nvenc, EncoderChoice::X264, EncoderChoice::Libav]
    );
    assert_eq!(EncoderChoice::candidates().len(), ENCODER_COUNT);
    assert_eq!(EncoderChoice::first(), EncoderChoice::Vaapi);
    assert_eq!(EncoderChoice::Vaapi.next(), Some(EncoderChoice::Nvenc));
    assert_eq!(EncoderChoice::Nvenc.next(), Some(EncoderChoice::X264));
    assert_eq!(EncoderChoice::X264.next(), Some(EncoderChoice::Libav));
    assert_eq!(EncoderChoice::Libav.next(), None);
}

#[test]
fn encoders_have_their_factory_names() {
    assert_eq!(EncoderChoice::Vaapi.factory_name(), "vaapih264enc");
    assert_eq!(EncoderChoice::Nvenc.factory_name(), "nvh264enc");
    assert_eq!(EncoderChoice::X264.factory_name(), "x264enc");
    assert_eq!(EncoderChoice::Libav.factory_name(), "avenc_h264");
}

#[test]
fn the_first_available_encoder_wins() {
    assert_eq!(support(true, true, true, true).select(), Some(EncoderChoice::Vaapi));
    assert_eq!(support(false, true, true, true).select(), Some(EncoderChoice::Nvenc));
    assert_eq!(support(false, false, true, true).select(), Some(EncoderChoice::X264));
    assert_eq!(support(false, false, false, true).select(), Some(EncoderChoice::Libav));
    assert_eq!(support(true, false, false, true).select(), Some(EncoderChoice::Vaapi));
    assert_eq!(support(false, true, false, true).select(), Some(EncoderChoice::Nvenc));
}

#[test]
fn no_encoder_gives_no_choice() {
    assert_eq!(support(false, false, false, false).select(), None);
}

#[test]
fn select_agrees_with_a_walk_down_the_list() {
    for bits in 0..16u8 {
        let s = support(bits & 1 != 0, bits & 2 != 0, bits & 4 != 0, bits & 8 != 0);
        let expected = EncoderChoice::candidates().into_iter().find(|e| s.supports(*e));
        assert_eq!(s.select(), expected);
    }
}
