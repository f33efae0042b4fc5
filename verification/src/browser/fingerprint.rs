//! Scripts that mask a browser's fingerprint: noise on canvas reads, a
//! fixed WebGL vendor and renderer, and noise on audio samples.
use vstd::prelude::*;

use crate::config::FingerprintSection;
use crate::text::{concat2, i64_to_decimal, owned, signed_decimal, views};

verus! {

/// The canvas script up to the lowest noise value.
pub open spec fn canvas_head() -> Seq<char> {
    "\n            (() => {\n                const randomInt = (min, max) => {\n                    return Math.floor(Math.random() * (max - min + 1)) + min;\n                };\n                const originalToDataURL = HTMLCanvasElement.prototype.toDataURL;\n                HTMLCanvasElement.prototype.toDataURL = function() {\n                    try {\n                        const ctx = this.getContext('2d');\n                        if (ctx) {\n                            const imageData = ctx.getImageData(0, 0, this.width, this.height);\n                            for (let i = 0; i < imageData.data.length; i += 4) {\n                                const delta = randomInt("@
}
/// The canvas script between the two noise bounds.
pub open spec fn canvas_mid() -> Seq<char> {
    ", "@
}
/// The canvas script after the highest noise value.
pub open spec fn canvas_tail() -> Seq<char> {
    ");\n                                imageData.data[i] = Math.min(255, Math.max(0, imageData.data[i] + delta));\n                            }\n                            ctx.putImageData(imageData, 0, 0);\n                        }\n                    } catch (_) {}\n                    return originalToDataURL.apply(this, arguments);\n                };\n            })();\n            "@
}
/// The WebGL script up to the vendor.
pub open spec fn webgl_head() -> Seq<char> {
    "\n            (() => {\n                const spoofParam = (proto) => {\n                    if (!proto || !proto.getParameter) {\n                        return;\n                    }\n                    const original = proto.getParameter;\n                    proto.getParameter = function(param) {\n                        if (param === 37445) {\n                            return '"@
}
/// The WebGL script between vendor and renderer.
pub open spec fn webgl_mid() -> Seq<char> {
    "';\n                        }\n                        if (param === 37446) {\n                            return '"@
}
/// The WebGL script after the renderer.
pub open spec fn webgl_tail() -> Seq<char> {
    "';\n                        }\n                        return original.apply(this, arguments);\n                    };\n                };\n                spoofParam(WebGLRenderingContext?.prototype);\n                spoofParam(WebGL2RenderingContext?.prototype);\n            })();\n            "@
}
/// The audio script up to the noise level.
pub open spec fn audio_head() -> Seq<char> {
    "\n            (() => {\n                const noiseLevel = "@
}
/// The audio script after the noise level.
pub open spec fn audio_tail() -> Seq<char> {
    ";\n                const origGetChannelData = AudioBuffer?.prototype?.getChannelData;\n                if (!origGetChannelData) {\n                    return;\n                }\n                AudioBuffer.prototype.getChannelData = function(channel) {\n                    const data = origGetChannelData.call(this, channel);\n                    if (data) {\n                        for (let i = 0; i < data.length; i++) {\n                            data[i] = data[i] + (Math.random() * noiseLevel - noiseLevel / 2);\n                        }\n                    }\n                    return data;\n                };\n            })();\n            "@
}

/// The script that adds noise, drawn between `min` and `max`, to what a
/// canvas reads back.
pub open spec fn canvas_script(min: i32, max: i32) -> Seq<char> {
    canvas_head() + signed_decimal(min as int) + canvas_mid() + signed_decimal(max as int) + canvas_tail()
}

/// The script that makes WebGL report this vendor and renderer.
pub open spec fn webgl_script(vendor: Seq<char>, renderer: Seq<char>) -> Seq<char> {
    webgl_head() + vendor + webgl_mid() + renderer + webgl_tail()
}

/// The script that adds noise of this level to audio samples.
pub open spec fn audio_script(noise: Seq<char>) -> Seq<char> {
    audio_head() + noise + audio_tail()
}

/// The configured value, or the default.
pub open spec fn or_default(value: Option<String>, default: Seq<char>) -> Seq<char> {
    match value {
        Some(v) => v@,
        None => default,
    }
}

/// The scripts a configuration asks for, in the order they are applied:
/// canvas noise, WebGL mask (Intel's vendor and renderer unless
/// configured), audio noise.
pub open spec fn masking_scripts(c: FingerprintSection) -> Seq<Seq<char>> {
    (if c.enable_canvas_noise {
        seq![canvas_script(c.canvas_noise_range[0], c.canvas_noise_range[1])]
    } else {
        seq![]
    }) + (if c.enable_webgl_mask {
        seq![
            webgl_script(
                or_default(c.webgl_vendor, "Intel Inc."@),
                or_default(c.webgl_renderer, "Intel Iris OpenGL Engine"@),
            ),
        ]
    } else {
        seq![]
    }) + (if c.enable_audio_mask {
        seq![audio_script(c.audio_noise@)]
    } else {
        seq![]
    })
}

/// See [`canvas_script`].
pub fn canvas_noise_script(min: i32, max: i32) -> (r: String)
    ensures
        r@ == canvas_script(min, max),
{
    let lo = i64_to_decimal(min as i64);
    let hi = i64_to_decimal(max as i64);
    let a = concat2("\n            (() => {\n                const randomInt = (min, max) => {\n                    return Math.floor(Math.random() * (max - min + 1)) + min;\n                };\n                const originalToDataURL = HTMLCanvasElement.prototype.toDataURL;\n                HTMLCanvasElement.prototype.toDataURL = function() {\n                    try {\n                        const ctx = this.getContext('2d');\n                        if (ctx) {\n                            const imageData = ctx.getImageData(0, 0, this.width, this.height);\n                            for (let i = 0; i < imageData.data.length; i += 4) {\n                                const delta = randomInt(", lo.as_str());
    let b = concat2(a.as_str(), ", ");
    let c = concat2(b.as_str(), hi.as_str());
    let r = concat2(c.as_str(), ");\n                                imageData.data[i] = Math.min(255, Math.max(0, imageData.data[i] + delta));\n                            }\n                            ctx.putImageData(imageData, 0, 0);\n                        }\n                    } catch (_) {}\n                    return originalToDataURL.apply(this, arguments);\n                };\n            })();\n            ");
    assert(r@ =~= canvas_script(min, max));
    r
}

/// See [`webgl_script`].
pub fn webgl_mask_script(vendor: &str, renderer: &str) -> (r: String)
    ensures
        r@ == webgl_script(vendor@, renderer@),
{
    let a = concat2("\n            (() => {\n                const spoofParam = (proto) => {\n                    if (!proto || !proto.getParameter) {\n                        return;\n                    }\n                    const original = proto.getParameter;\n                    proto.getParameter = function(param) {\n                        if (param === 37445) {\n                            return '", vendor);
    let b = concat2(a.as_str(), "';\n                        }\n                        if (param === 37446) {\n                            return '");
    let c = concat2(b.as_str(), renderer);
    let r = concat2(c.as_str(), "';\n                        }\n                        return original.apply(this, arguments);\n                    };\n                };\n                spoofParam(WebGLRenderingContext?.prototype);\n                spoofParam(WebGL2RenderingContext?.prototype);\n            })();\n            ");
    assert(r@ =~= webgl_script(vendor@, renderer@));
    r
}

/// See [`audio_script`].
pub fn audio_mask_script(noise: &str) -> (r: String)
    ensures
        r@ == audio_script(noise@),
{
    let a = concat2("\n            (() => {\n                const noiseLevel = ", noise);
    let r = concat2(a.as_str(), ";\n                const origGetChannelData = AudioBuffer?.prototype?.getChannelData;\n                if (!origGetChannelData) {\n                    return;\n                }\n                AudioBuffer.prototype.getChannelData = function(channel) {\n                    const data = origGetChannelData.call(this, channel);\n                    if (data) {\n                        for (let i = 0; i < data.length; i++) {\n                            data[i] = data[i] + (Math.random() * noiseLevel - noiseLevel / 2);\n                        }\n                    }\n                    return data;\n                };\n            })();\n            ");
    assert(r@ =~= audio_script(noise@));
    r
}

/// Masks the fingerprint of the pages a browser opens.
#[derive(Clone, Debug)]
pub struct FingerprintMasker {
    config: FingerprintSection,
}

impl FingerprintMasker {
    /// The configuration the masker applies.
    pub closed spec fn spec_config(self) -> FingerprintSection {
        self.config
    }

    pub fn new(config: FingerprintSection) -> (r: Self)
        ensures
            r.spec_config() == config,
    {
        FingerprintMasker { config }
    }

    /// The scripts to add to every new document, in order; see
    /// [`masking_scripts`].
    pub fn scripts(&self) -> (r: Vec<String>)
        ensures
            views(r@) == masking_scripts(self.spec_config()),
    {
        let c = &self.config;
        let mut r: Vec<String> = Vec::new();
        if c.enable_canvas_noise {
            r.push(canvas_noise_script(c.canvas_noise_range[0], c.canvas_noise_range[1]));
        }
        let ghost after_canvas = views(r@);
        if c.enable_webgl_mask {
            let vendor = match &c.webgl_vendor {
                Some(v) => v.clone(),
                None => owned("Intel Inc."),
            };
            let renderer = match &c.webgl_renderer {
                Some(v) => v.clone(),
                None => owned("Intel Iris OpenGL Engine"),
            };
            r.push(webgl_mask_script(vendor.as_str(), renderer.as_str()));
        }
        if c.enable_audio_mask {
            r.push(audio_mask_script(c.audio_noise.as_str()));
        }
        assert(views(r@) =~= masking_scripts(self.config));
        r
    }
}

} // verus!
