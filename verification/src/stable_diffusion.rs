//! Configuration presets for the image-generation model collaborator.
//!
//! These describe the network shapes and sampling setup the worker hands
//! to the model runtime: the dimensioning here is the part the dispatch
//! core decides and checks (sizes divisible by eight, per-version
//! defaults); the runtime's own numeric constants stay with the runtime.

use vstd::prelude::*;

verus! {

/// One down-block of the conditional U-Net.
#[derive(Clone, Copy, Debug, PartialEq, Eq, Structural)]
pub struct BlockConfig {
    pub out_channels: usize,
    pub use_cross_attn: bool,
    pub attention_head_dim: usize,
}

/// Shape of the conditional U-Net.
pub struct UNetConfig {
    pub blocks: Vec<BlockConfig>,
    pub center_input_sample: bool,
    pub cross_attention_dim: usize,
    pub downsample_padding: usize,
    pub flip_sin_to_cos: bool,
    pub layers_per_block: usize,
    pub norm_num_groups: usize,
    pub sliced_attention_size: Option<usize>,
    pub use_linear_projection: bool,
}

/// Shape of the variational autoencoder.
pub struct AutoEncoderConfig {
    pub block_out_channels: Vec<usize>,
    pub layers_per_block: usize,
    pub latent_channels: usize,
    pub norm_num_groups: usize,
}

/// What the sampling scheduler predicts at each step.
#[derive(Clone, Copy, Debug, PartialEq, Eq, Structural)]
pub enum PredictionType {
    Epsilon,
    VPrediction,
}

/// Scheduler setup.
#[derive(Clone, Copy, Debug, PartialEq, Eq, Structural)]
pub struct SchedulerConfig {
    pub prediction_type: PredictionType,
}

/// Which text-encoder preset the version uses.
#[derive(Clone, Copy, Debug, PartialEq, Eq, Structural)]
pub enum ClipVersion {
    V1_5,
    V2_1,
}

/// A model-version preset: output dimensions plus the component shapes.
pub struct StableDiffusionConfig {
    pub width: usize,
    pub height: usize,
    pub clip: ClipVersion,
    pub autoencoder: AutoEncoderConfig,
    pub unet: UNetConfig,
    pub scheduler: SchedulerConfig,
}

/// The autoencoder shape shared by both model versions.
pub open spec fn spec_autoencoder_shape(c: AutoEncoderConfig) -> bool {
    &&& c.block_out_channels@ == seq![128usize, 256usize, 512usize, 512usize]
    &&& c.layers_per_block == 2
    &&& c.latent_channels == 4
    &&& c.norm_num_groups == 32
}

impl StableDiffusionConfig {
    /// The scheduler preset of this configuration.
    pub open spec fn spec_prediction_type(&self) -> PredictionType {
        self.scheduler.prediction_type
    }

    /// The U-Net shape of this configuration.
    pub open spec fn spec_unet(&self) -> UNetConfig {
        self.unet
    }

    /// The autoencoder shape of this configuration.
    pub open spec fn spec_autoencoder(&self) -> AutoEncoderConfig {
        self.autoencoder
    }

    /// The version 1.5 preset: 512 by 512 unless overridden, cross
    /// attention of width 768 with eight-dimensional heads, epsilon
    /// prediction.
    pub fn v1_5(
        sliced_attention_size: Option<usize>,
        height: Option<usize>,
        width: Option<usize>,
    ) -> (r: Self)
        requires
            height is Some ==> height->0 % 8 == 0,
            width is Some ==> width->0 % 8 == 0,
        ensures
            r.height == (if height is Some { height->0 } else { 512usize }),
            r.width == (if width is Some { width->0 } else { 512usize }),
            r.clip == ClipVersion::V1_5,
            r.spec_prediction_type() == PredictionType::Epsilon,
            r.spec_unet().blocks@ == seq![
                (BlockConfig { out_channels: 320, use_cross_attn: true, attention_head_dim: 8 }),
                (BlockConfig { out_channels: 640, use_cross_attn: true, attention_head_dim: 8 }),
                (BlockConfig { out_channels: 1280, use_cross_attn: true, attention_head_dim: 8 }),
                (BlockConfig { out_channels: 1280, use_cross_attn: false, attention_head_dim: 8 }),
            ],
            !r.spec_unet().center_input_sample,
            r.spec_unet().cross_attention_dim == 768,
            r.spec_unet().downsample_padding == 1,
            r.spec_unet().flip_sin_to_cos,
            r.spec_unet().layers_per_block == 2,
            r.spec_unet().norm_num_groups == 32,
            r.spec_unet().sliced_attention_size == sliced_attention_size,
            !r.spec_unet().use_linear_projection,
            spec_autoencoder_shape(r.spec_autoencoder()),
    {
        let mut blocks: Vec<BlockConfig> = Vec::new();
        blocks.push(BlockConfig { out_channels: 320, use_cross_attn: true, attention_head_dim: 8 });
        blocks.push(BlockConfig { out_channels: 640, use_cross_attn: true, attention_head_dim: 8 });
        blocks.push(
            BlockConfig { out_channels: 1280, use_cross_attn: true, attention_head_dim: 8 },
        );
        blocks.push(
            BlockConfig { out_channels: 1280, use_cross_attn: false, attention_head_dim: 8 },
        );
        proof {
            assert(blocks@ =~= seq![
                (BlockConfig { out_channels: 320, use_cross_attn: true, attention_head_dim: 8 }),
                (BlockConfig { out_channels: 640, use_cross_attn: true, attention_head_dim: 8 }),
                (BlockConfig { out_channels: 1280, use_cross_attn: true, attention_head_dim: 8 }),
                (BlockConfig { out_channels: 1280, use_cross_attn: false, attention_head_dim: 8 }),
            ]);
        }
        let unet = UNetConfig {
            blocks,
            center_input_sample: false,
            cross_attention_dim: 768,
            downsample_padding: 1,
            flip_sin_to_cos: true,
            layers_per_block: 2,
            norm_num_groups: 32,
            sliced_attention_size,
            use_linear_projection: false,
        };
        let autoencoder = make_autoencoder();
        let height = match height {
            Some(h) => h,
            None => 512,
        };
        let width = match width {
            Some(w) => w,
            None => 512,
        };
        StableDiffusionConfig {
            width,
            height,
            clip: ClipVersion::V1_5,
            autoencoder,
            unet,
            scheduler: SchedulerConfig { prediction_type: PredictionType::Epsilon },
        }
    }

    /// The version 2.1 family: 768 by 768 unless overridden, cross
    /// attention of width 1024 with wider heads, linear projection, and
    /// the given prediction type.
    fn v2_1_(
        sliced_attention_size: Option<usize>,
        height: Option<usize>,
        width: Option<usize>,
        prediction_type: PredictionType,
    ) -> (r: Self)
        requires
            height is Some ==> height->0 % 8 == 0,
            width is Some ==> width->0 % 8 == 0,
        ensures
            r.height == (if height is Some { height->0 } else { 768usize }),
            r.width == (if width is Some { width->0 } else { 768usize }),
            r.clip == ClipVersion::V2_1,
            r.spec_prediction_type() == prediction_type,
            r.spec_unet().blocks@ == seq![
                (BlockConfig { out_channels: 320, use_cross_attn: true, attention_head_dim: 5 }),
                (BlockConfig { out_channels: 640, use_cross_attn: true, attention_head_dim: 10 }),
                (BlockConfig { out_channels: 1280, use_cross_attn: true, attention_head_dim: 20 }),
                (BlockConfig { out_channels: 1280, use_cross_attn: false, attention_head_dim: 20 }),
            ],
            !r.spec_unet().center_input_sample,
            r.spec_unet().cross_attention_dim == 1024,
            r.spec_unet().downsample_padding == 1,
            r.spec_unet().flip_sin_to_cos,
            r.spec_unet().layers_per_block == 2,
            r.spec_unet().norm_num_groups == 32,
            r.spec_unet().sliced_attention_size == sliced_attention_size,
            r.spec_unet().use_linear_projection,
            spec_autoencoder_shape(r.spec_autoencoder()),
    {
        let mut blocks: Vec<BlockConfig> = Vec::new();
        blocks.push(BlockConfig { out_channels: 320, use_cross_attn: true, attention_head_dim: 5 });
        blocks.push(
            BlockConfig { out_channels: 640, use_cross_attn: true, attention_head_dim: 10 },
        );
        blocks.push(
            BlockConfig { out_channels: 1280, use_cross_attn: true, attention_head_dim: 20 },
        );
        blocks.push(
            BlockConfig { out_channels: 1280, use_cross_attn: false, attention_head_dim: 20 },
        );
        proof {
            assert(blocks@ =~= seq![
                (BlockConfig { out_channels: 320, use_cross_attn: true, attention_head_dim: 5 }),
                (BlockConfig { out_channels: 640, use_cross_attn: true, attention_head_dim: 10 }),
                (BlockConfig { out_channels: 1280, use_cross_attn: true, attention_head_dim: 20 }),
                (BlockConfig { out_channels: 1280, use_cross_attn: false, attention_head_dim: 20 }),
            ]);
        }
        let unet = UNetConfig {
            blocks,
            center_input_sample: false,
            cross_attention_dim: 1024,
            downsample_padding: 1,
            flip_sin_to_cos: true,
            layers_per_block: 2,
            norm_num_groups: 32,
            sliced_attention_size,
            use_linear_projection: true,
        };
        let autoencoder = make_autoencoder();
        let height = match height {
            Some(h) => h,
            None => 768,
        };
        let width = match width {
            Some(w) => w,
            None => 768,
        };
        StableDiffusionConfig {
            width,
            height,
            clip: ClipVersion::V2_1,
            autoencoder,
            unet,
            scheduler: SchedulerConfig { prediction_type },
        }
    }

    /// The version 2.1 preset, which predicts velocity.
    pub fn v2_1(
        sliced_attention_size: Option<usize>,
        height: Option<usize>,
        width: Option<usize>,
    ) -> (r: Self)
        requires
            height is Some ==> height->0 % 8 == 0,
            width is Some ==> width->0 % 8 == 0,
        ensures
            r.height == (if height is Some { height->0 } else { 768usize }),
            r.width == (if width is Some { width->0 } else { 768usize }),
            r.clip == ClipVersion::V2_1,
            r.spec_prediction_type() == PredictionType::VPrediction,
            r.spec_unet().blocks@ == seq![
                (BlockConfig { out_channels: 320, use_cross_attn: true, attention_head_dim: 5 }),
                (BlockConfig { out_channels: 640, use_cross_attn: true, attention_head_dim: 10 }),
                (BlockConfig { out_channels: 1280, use_cross_attn: true, attention_head_dim: 20 }),
                (BlockConfig { out_channels: 1280, use_cross_attn: false, attention_head_dim: 20 }),
            ],
            !r.spec_unet().center_input_sample,
            r.spec_unet().cross_attention_dim == 1024,
            r.spec_unet().downsample_padding == 1,
            r.spec_unet().flip_sin_to_cos,
            r.spec_unet().layers_per_block == 2,
            r.spec_unet().norm_num_groups == 32,
            r.spec_unet().sliced_attention_size == sliced_attention_size,
            r.spec_unet().use_linear_projection,
            spec_autoencoder_shape(r.spec_autoencoder()),
    {
        Self::v2_1_(sliced_attention_size, height, width, PredictionType::VPrediction)
    }

    /// The version 2.1 inpainting preset, which predicts noise.
    pub fn v2_1_inpaint(
        sliced_attention_size: Option<usize>,
        height: Option<usize>,
        width: Option<usize>,
    ) -> (r: Self)
        requires
            height is Some ==> height->0 % 8 == 0,
            width is Some ==> width->0 % 8 == 0,
        ensures
            r.height == (if height is Some { height->0 } else { 768usize }),
            r.width == (if width is Some { width->0 } else { 768usize }),
            r.clip == ClipVersion::V2_1,
            r.spec_prediction_type() == PredictionType::Epsilon,
            r.spec_unet().blocks@ == seq![
                (BlockConfig { out_channels: 320, use_cross_attn: true, attention_head_dim: 5 }),
                (BlockConfig { out_channels: 640, use_cross_attn: true, attention_head_dim: 10 }),
                (BlockConfig { out_channels: 1280, use_cross_attn: true, attention_head_dim: 20 }),
                (BlockConfig { out_channels: 1280, use_cross_attn: false, attention_head_dim: 20 }),
            ],
            !r.spec_unet().center_input_sample,
            r.spec_unet().cross_attention_dim == 1024,
            r.spec_unet().downsample_padding == 1,
            r.spec_unet().flip_sin_to_cos,
            r.spec_unet().layers_per_block == 2,
            r.spec_unet().norm_num_groups == 32,
            r.spec_unet().sliced_attention_size == sliced_attention_size,
            r.spec_unet().use_linear_projection,
            spec_autoencoder_shape(r.spec_autoencoder()),
    {
        Self::v2_1_(sliced_attention_size, height, width, PredictionType::Epsilon)
    }

    /// The scheduler setup to hand to the model runtime.
    pub fn build_scheduler(&self) -> (r: SchedulerConfig)
        ensures
            r == self.scheduler,
    {
        self.scheduler
    }
}

/// The autoencoder shape shared by both model versions.
fn make_autoencoder() -> (r: AutoEncoderConfig)
    ensures
        spec_autoencoder_shape(r),
{
    let mut block_out_channels: Vec<usize> = Vec::new();
    block_out_channels.push(128);
    block_out_channels.push(256);
    block_out_channels.push(512);
    block_out_channels.push(512);
    proof {
        assert(block_out_channels@ =~= seq![128usize, 256usize, 512usize, 512usize]);
    }
    AutoEncoderConfig { block_out_channels, layers_per_block: 2, latent_channels: 4, norm_num_groups: 32 }
}

} // verus!
