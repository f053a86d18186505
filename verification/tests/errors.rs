use std::sync::Arc;

use renderer::error::{Error, ResultExt};
use renderer::ids::{EntityId, WorldId};
use renderer::resources::{
    BindingKind, BindingSlot, ResourceCtx, CAMERA_UNIFORM_SIZE, STORAGE_TEXTURE_SIZE,
};
use renderer::surface::{AlphaMode, PresentMode, SurfaceCapabilities, SurfaceCtx, TextureFormat};
use renderer::window::WindowCtx;

#[test]
fn ext_wraps_description() {
    let e = Error::ext(String::from("adapter negotiation failed"));
    assert_eq!(e, Error::External(String::from("adapter negotiation failed")));
}

#[test]
fn corerr_keeps_ok_and_wraps_err() {
    let ok: Result<u32, String> = Ok(5);
    assert_eq!(ok.corerr(), Ok(5));
    let err: Result<u32, String> = Err(String::from("device lost"));
    assert_eq!(err.corerr(), Err(Error::External(String::from("device lost"))));
}

#[test]
fn cortext_replaces_err_with_invariant() {
    let ok: Result<u32, String> = Ok(5);
    assert_eq!(ok.cortext("unused"), Ok(5));
    let err: Result<u32, String> = Err(String::from("anything"));
    assert_eq!(err.cortext("queue missing"), Err(Error::Invariant("queue missing")));
}

#[test]
fn empty_capability_lists_are_invariant_errors() {
    let window: WindowCtx<u32> = WindowCtx::new(Arc::new(0), 800, 600);
    let some_format = TextureFormat { code: 1, srgb: true };

    let no_formats = SurfaceCapabilities {
        formats: vec![],
        present_modes: vec![PresentMode { code: 0 }],
        alpha_modes: vec![AlphaMode { code: 0 }],
    };
    assert!(matches!(SurfaceCtx::new(&window, &no_formats), Err(Error::Invariant(_))));

    let no_present = SurfaceCapabilities {
        formats: vec![some_format],
        present_modes: vec![],
        alpha_modes: vec![AlphaMode { code: 0 }],
    };
    assert!(matches!(SurfaceCtx::new(&window, &no_present), Err(Error::Invariant(_))));

    let no_alpha = SurfaceCapabilities {
        formats: vec![some_format],
        present_modes: vec![PresentMode { code: 0 }],
        alpha_modes: vec![],
    };
    assert!(matches!(SurfaceCtx::new(&window, &no_alpha), Err(Error::Invariant(_))));
}

#[test]
fn resources_hold_the_fixed_descriptors() {
    let resources = ResourceCtx::new();
    assert_eq!(resources.texture_width, STORAGE_TEXTURE_SIZE);
    assert_eq!(resources.texture_height, STORAGE_TEXTURE_SIZE);
    assert_eq!(resources.texture_width, 30);
    assert_eq!(resources.uniform_size, CAMERA_UNIFORM_SIZE);
    assert_eq!(resources.uniform_size, 16);
    assert_eq!(
        resources.layout,
        vec![
            BindingSlot { binding: 0, kind: BindingKind::UniformBuffer },
            BindingSlot { binding: 1, kind: BindingKind::StorageTexture },
        ]
    );
    assert_eq!(resources.group, resources.layout);
}

#[test]
fn ids_are_plain_values() {
    assert_eq!(EntityId(4), EntityId(4));
    assert_ne!(WorldId(1), WorldId(2));
}
