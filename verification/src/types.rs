//! The closed sets of choices that the native layer understands.

use vstd::prelude::*;

verus! {

/// Where a session takes its frames from.
#[derive(Clone, Copy, Debug, PartialEq, Eq, Hash, Structural)]
pub enum InputType {
    Usb,
    Svo,
    Stream,
}

/// The size of the frames a camera delivers.
#[derive(Clone, Copy, Debug, PartialEq, Eq, Hash, Structural)]
pub enum Resolution {
    Hd2k,
    Hd1080,
    Hd720,
    Vga,
}

/// Whether frames are turned upside down.
#[derive(Clone, Copy, Debug, PartialEq, Eq, Hash, Structural)]
pub enum FlipMode {
    Off,
    On,
    Auto,
}

/// How much effort goes into the depth map.
#[derive(Clone, Copy, Debug, PartialEq, Eq, Hash, Structural)]
pub enum DepthMode {
    Disabled,
    Performance,
    Quality,
    Ultra,
}

/// The unit of every distance the native layer reports.
#[derive(Clone, Copy, Debug, PartialEq, Eq, Hash, Structural)]
pub enum Unit {
    Millimeter,
    Centimeter,
    Meter,
    Inch,
    Foot,
}

/// The axes in which positions are reported.
#[derive(Clone, Copy, Debug, PartialEq, Eq, Hash, Structural)]
pub enum CoordinateSystem {
    Image,
    LeftHandedYUp,
    RightHandedYUp,
    RightHandedZUp,
    LeftHandedZUp,
    RightHandedZUpXFwd,
}

/// How depth is filled in where it could not be measured.
#[derive(Clone, Copy, Debug, PartialEq, Eq, Hash, Structural)]
pub enum SensingMode {
    Standard,
    Fill,
}

/// The frame that positions refer to.
#[derive(Clone, Copy, Debug, PartialEq, Eq, Hash, Structural)]
pub enum ReferenceFrame {
    World,
    Camera,
}

/// How a recording is compressed.
#[derive(Clone, Copy, Debug, PartialEq, Eq, Hash, Structural)]
pub enum SvoCompressionMode {
    Lossless,
    H264,
    H265,
}

/// How a stream is encoded.
#[derive(Clone, Copy, Debug, PartialEq, Eq, Hash, Structural)]
pub enum StreamingCodec {
    H264,
    H265,
}

/// Which memory an image is delivered to.
#[derive(Clone, Copy, Debug, PartialEq, Eq, Hash, Structural)]
pub enum Mem {
    Cpu,
    Gpu,
}

/// Which image of a captured frame is meant.
#[derive(Clone, Copy, Debug, PartialEq, Eq, Hash, Structural)]
pub enum ImageView {
    Left,
    Right,
    LeftGray,
    RightGray,
    LeftUnrectified,
    RightUnrectified,
    LeftUnrectifiedGray,
    RightUnrectifiedGray,
    SideBySide,
    Depth,
    Confidence,
    Normals,
    DepthRight,
    NormalsRight,
}

/// The camera models the native layer knows, numbered from zero in this order.
#[derive(Clone, Copy, Debug, PartialEq, Eq, Hash, Structural)]
pub enum Model {
    Zed,
    ZedM,
    Zed2,
    Zed2i,
}

impl Model {
    /// The model that the native layer numbers `code`, if there is one.
    pub open spec fn spec_from_code(code: i32) -> Option<Model> {
        if code == 0 {
            Some(Model::Zed)
        } else if code == 1 {
            Some(Model::ZedM)
        } else if code == 2 {
            Some(Model::Zed2)
        } else if code == 3 {
            Some(Model::Zed2i)
        } else {
            None
        }
    }

    /// The name the model is sold under.
    pub open spec fn spec_name(self) -> Seq<char> {
        match self {
            Model::Zed => "ZED"@,
            Model::ZedM => "ZED M"@,
            Model::Zed2 => "ZED 2"@,
            Model::Zed2i => "ZED 2i"@,
        }
    }

    /// Decodes a model number of the native layer.
    #[verifier::when_used_as_spec(spec_from_code)]
    pub fn from_code(code: i32) -> (r: Option<Model>)
        ensures
            r == Model::spec_from_code(code),
            r is Some <==> 0 <= code <= 3,
    {
        match code {
            0 => Some(Model::Zed),
            1 => Some(Model::ZedM),
            2 => Some(Model::Zed2),
            3 => Some(Model::Zed2i),
            _ => None,
        }
    }

    /// The name the model is sold under.
    pub fn name(self) -> (r: &'static str)
        ensures
            r@ == self.spec_name(),
    {
        match self {
            Model::Zed => "ZED",
            Model::ZedM => "ZED M",
            Model::Zed2 => "ZED 2",
            Model::Zed2i => "ZED 2i",
        }
    }
}

/// Whether an attached device can be opened, numbered from zero in this order.
#[derive(Clone, Copy, Debug, PartialEq, Eq, Hash, Structural)]
pub enum CameraState {
    Available,
    NotAvailable,
}

impl CameraState {
    /// The state that the native layer numbers `code`, if there is one.
    pub open spec fn spec_from_code(code: i32) -> Option<CameraState> {
        if code == 0 {
            Some(CameraState::Available)
        } else if code == 1 {
            Some(CameraState::NotAvailable)
        } else {
            None
        }
    }

    /// The state in lower-case words.
    pub open spec fn spec_name(self) -> Seq<char> {
        match self {
            CameraState::Available => "available"@,
            CameraState::NotAvailable => "not available"@,
        }
    }

    /// Decodes a device state number of the native layer.
    #[verifier::when_used_as_spec(spec_from_code)]
    pub fn from_code(code: i32) -> (r: Option<CameraState>)
        ensures
            r == CameraState::spec_from_code(code),
            r is Some <==> 0 <= code <= 1,
    {
        match code {
            0 => Some(CameraState::Available),
            1 => Some(CameraState::NotAvailable),
            _ => None,
        }
    }

    /// The state in lower-case words.
    pub fn name(self) -> (r: &'static str)
        ensures
            r@ == self.spec_name(),
    {
        match self {
            CameraState::Available => "available",
            CameraState::NotAvailable => "not available",
        }
    }
}

} // verus!
