use glstate::driver::{GL_ARRAY_BUFFER, GL_ELEMENT_ARRAY_BUFFER, GL_TEXTURE0, GL_TEXTURE_2D};
use glstate::{Driver, DriverCall, GlCache, IndexType};

#[test]
fn bind_buffer_is_idempotent() {
    let mut cache = GlCache::new();
    let mut driver = Driver::new();
    cache.bind_buffer(&mut driver, GL_ARRAY_BUFFER, 5, None);
    assert_eq!(driver.calls.len(), 1);
    assert_eq!(
        driver.calls[0],
        DriverCall::BindBuffer { target: GL_ARRAY_BUFFER, buffer: 5 }
    );
    assert_eq!(cache.vertex_buffer, 5);
    // The second identical bind issues zero additional driver calls.
    cache.bind_buffer(&mut driver, GL_ARRAY_BUFFER, 5, None);
    assert_eq!(driver.calls.len(), 1);
    assert_eq!(cache.vertex_buffer, 5);
}

#[test]
fn bind_index_buffer_tracks_element_type() {
    let mut cache = GlCache::new();
    let mut driver = Driver::new();
    cache.bind_buffer(&mut driver, GL_ELEMENT_ARRAY_BUFFER, 3, Some(IndexType::Short));
    assert_eq!(cache.index_buffer, 3);
    assert_eq!(cache.index_type, Some(IndexType::Short));
    assert_eq!(driver.calls.len(), 1);
    cache.bind_buffer(&mut driver, GL_ELEMENT_ARRAY_BUFFER, 3, Some(IndexType::Short));
    assert_eq!(driver.calls.len(), 1);
}

#[test]
fn bind_texture_is_idempotent() {
    let mut cache = GlCache::new();
    let mut driver = Driver::new();
    // Unit 0 is active initially, so the first bind needs no activation.
    cache.bind_texture(&mut driver, 0, 7);
    assert_eq!(driver.calls.len(), 1);
    assert_eq!(
        driver.calls[0],
        DriverCall::BindTexture { target: GL_TEXTURE_2D, texture: 7 }
    );
    assert_eq!(cache.textures[0], 7);
    // The second identical bind issues zero additional driver calls.
    cache.bind_texture(&mut driver, 0, 7);
    assert_eq!(driver.calls.len(), 1);
    assert_eq!(cache.textures[0], 7);
    // A different unit is activated first, then bound.
    cache.bind_texture(&mut driver, 3, 9);
    assert_eq!(driver.calls.len(), 3);
    assert_eq!(driver.calls[1], DriverCall::ActiveTexture { unit: GL_TEXTURE0 + 3 });
    assert_eq!(
        driver.calls[2],
        DriverCall::BindTexture { target: GL_TEXTURE_2D, texture: 9 }
    );
    // And again: zero additional calls on the repeat.
    cache.bind_texture(&mut driver, 3, 9);
    assert_eq!(driver.calls.len(), 3);
}

#[test]
fn store_restore_keeps_binding() {
    let mut cache = GlCache::new();
    let mut driver = Driver::new();
    cache.bind_buffer(&mut driver, GL_ARRAY_BUFFER, 5, None);
    cache.store_buffer_binding(&mut driver, GL_ARRAY_BUFFER);
    cache.restore_buffer_binding(&mut driver, GL_ARRAY_BUFFER);
    assert_eq!(cache.vertex_buffer, 5);
    assert_eq!(cache.stored_vertex_buffer, None);
}

#[test]
fn store_bind_restore_returns_to_empty_binding() {
    // A snapshot of "nothing bound" is a snapshot of binding 0, and restore
    // re-applies it: the temporary binding does not leak out.
    let mut cache = GlCache::new();
    let mut driver = Driver::new();
    cache.store_buffer_binding(&mut driver, GL_ARRAY_BUFFER);
    cache.bind_buffer(&mut driver, GL_ARRAY_BUFFER, 9, None);
    assert_eq!(cache.vertex_buffer, 9);
    cache.restore_buffer_binding(&mut driver, GL_ARRAY_BUFFER);
    assert_eq!(cache.vertex_buffer, 0);
    assert_eq!(cache.stored_vertex_buffer, None);
    assert_eq!(
        *driver.calls.last().unwrap(),
        DriverCall::BindBuffer { target: GL_ARRAY_BUFFER, buffer: 0 }
    );
}

#[test]
fn store_bind_restore_returns_to_prior_binding() {
    let mut cache = GlCache::new();
    let mut driver = Driver::new();
    cache.bind_buffer(&mut driver, GL_ARRAY_BUFFER, 5, None);
    cache.store_buffer_binding(&mut driver, GL_ARRAY_BUFFER);
    cache.bind_buffer(&mut driver, GL_ARRAY_BUFFER, 9, None);
    assert_eq!(cache.vertex_buffer, 9);
    cache.restore_buffer_binding(&mut driver, GL_ARRAY_BUFFER);
    assert_eq!(cache.vertex_buffer, 5);
}

#[test]
fn store_bind_restore_index_buffer_restores_type() {
    let mut cache = GlCache::new();
    let mut driver = Driver::new();
    cache.bind_buffer(&mut driver, GL_ELEMENT_ARRAY_BUFFER, 4, Some(IndexType::Int));
    cache.store_buffer_binding(&mut driver, GL_ELEMENT_ARRAY_BUFFER);
    cache.bind_buffer(&mut driver, GL_ELEMENT_ARRAY_BUFFER, 8, Some(IndexType::Byte));
    cache.restore_buffer_binding(&mut driver, GL_ELEMENT_ARRAY_BUFFER);
    assert_eq!(cache.index_buffer, 4);
    assert_eq!(cache.index_type, Some(IndexType::Int));
}

#[test]
fn store_bind_restore_texture_returns_to_prior_binding() {
    let mut cache = GlCache::new();
    let mut driver = Driver::new();
    cache.bind_texture(&mut driver, 2, 11);
    cache.store_texture_binding(&mut driver, 2);
    cache.bind_texture(&mut driver, 2, 12);
    assert_eq!(cache.textures[2], 12);
    cache.restore_texture_binding(&mut driver, 2);
    assert_eq!(cache.textures[2], 11);
    // The scratch slot is cleared by the restore.
    assert_eq!(cache.stored_texture, None);
}

#[test]
fn clear_bindings_reset_everything_tracked() {
    let mut cache = GlCache::new();
    let mut driver = Driver::new();
    cache.bind_buffer(&mut driver, GL_ARRAY_BUFFER, 5, None);
    cache.bind_buffer(&mut driver, GL_ELEMENT_ARRAY_BUFFER, 6, Some(IndexType::Short));
    cache.bind_texture(&mut driver, 0, 7);
    cache.bind_texture(&mut driver, 3, 8);
    cache.clear_buffer_bindings(&mut driver);
    cache.clear_texture_bindings(&mut driver);
    assert_eq!(cache.vertex_buffer, 0);
    assert_eq!(cache.index_buffer, 0);
    assert_eq!(cache.index_type, None);
    for slot in cache.textures.iter() {
        assert_eq!(*slot, 0);
    }
}
