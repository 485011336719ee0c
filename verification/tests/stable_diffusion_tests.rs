use sandbox_core::stable_diffusion::{ClipVersion, PredictionType, StableDiffusionConfig};

#[test]
fn v1_5_defaults_to_512_square() {
    let config = StableDiffusionConfig::v1_5(None, None, None);
    assert_eq!(config.width, 512);
    assert_eq!(config.height, 512);
    assert_eq!(config.clip, ClipVersion::V1_5);
    assert_eq!(config.scheduler.prediction_type, PredictionType::Epsilon);
    assert_eq!(config.unet.cross_attention_dim, 768);
    assert!(!config.unet.use_linear_projection);
    let channels: Vec<usize> = config.unet.blocks.iter().map(|b| b.out_channels).collect();
    assert_eq!(channels, vec![320, 640, 1280, 1280]);
    let heads: Vec<usize> = config.unet.blocks.iter().map(|b| b.attention_head_dim).collect();
    assert_eq!(heads, vec![8, 8, 8, 8]);
    assert!(!config.unet.blocks[3].use_cross_attn);
    assert_eq!(config.autoencoder.block_out_channels, vec![128, 256, 512, 512]);
    assert_eq!(config.autoencoder.latent_channels, 4);
}

#[test]
fn v1_5_accepts_overridden_dimensions() {
    let config = StableDiffusionConfig::v1_5(Some(2), Some(768), Some(640));
    assert_eq!(config.height, 768);
    assert_eq!(config.width, 640);
    assert_eq!(config.unet.sliced_attention_size, Some(2));
}

#[test]
fn v2_1_defaults_to_768_square_with_v_prediction() {
    let config = StableDiffusionConfig::v2_1(None, None, None);
    assert_eq!(config.width, 768);
    assert_eq!(config.height, 768);
    assert_eq!(config.clip, ClipVersion::V2_1);
    assert_eq!(config.scheduler.prediction_type, PredictionType::VPrediction);
    assert_eq!(config.unet.cross_attention_dim, 1024);
    assert!(config.unet.use_linear_projection);
    let heads: Vec<usize> = config.unet.blocks.iter().map(|b| b.attention_head_dim).collect();
    assert_eq!(heads, vec![5, 10, 20, 20]);
}

#[test]
fn v2_1_inpaint_predicts_noise() {
    let config = StableDiffusionConfig::v2_1_inpaint(None, None, None);
    assert_eq!(config.clip, ClipVersion::V2_1);
    assert_eq!(config.scheduler.prediction_type, PredictionType::Epsilon);
    assert_eq!(config.width, 768);
    assert_eq!(config.height, 768);
}

#[test]
fn scheduler_is_taken_from_the_preset() {
    let config = StableDiffusionConfig::v2_1(None, None, None);
    let scheduler = config.build_scheduler();
    assert_eq!(scheduler.prediction_type, PredictionType::VPrediction);
}
