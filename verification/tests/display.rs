use drm::buffer::DrmFourcc;
use i_slint_core::platform::PlatformError;
use std::cell::Cell;
use std::sync::Arc;
use swdisplay::ActiveDisplay;
use swdisplay::ActiveStrategy;
use swdisplay::BufferAccessStrategy;
use swdisplay::MemoryStrategy;
use swdisplay::PresenterHandle;
use swdisplay::SoftwareBufferDisplay;
use swdisplay::Strategy;

type Display = ActiveDisplay<MemoryStrategy, MemoryStrategy>;

fn small_panel() -> MemoryStrategy {
    // 2 by 2 pixels, two bytes each, rows padded to 6 bytes.
    MemoryStrategy::new(2, 2, 2, DrmFourcc::Rgb565, vec![0u8; 12])
}

fn primary_display() -> Arc<Display> {
    Arc::new(ActiveDisplay::new(ActiveStrategy::DumbBuffer(small_panel())))
}

#[test]
fn render_routine_gets_buffer_and_layout() {
    let display = primary_display();
    let seen = Cell::new((0usize, 0u8, DrmFourcc::Xrgb8888));
    let r = display.map_back_buffer(|view, bytes_per_pixel, format| {
        seen.set((view.len(), bytes_per_pixel, format));
        Ok(())
    });
    assert!(r.is_ok());
    assert_eq!(seen.get(), (12, 2, DrmFourcc::Rgb565));
    assert_eq!(display.bytes_per_pixel(), 2);
    assert_eq!(display.format(), DrmFourcc::Rgb565);
}

#[test]
fn buffer_holds_what_the_routine_wrote() {
    let display = primary_display();
    let r = display.map_back_buffer(|view, _, _| {
        for (i, byte) in view.iter_mut().enumerate() {
            *byte = i as u8 + 1;
        }
        Ok(())
    });
    assert!(r.is_ok());
    let read = Cell::new([0u8; 12]);
    let r = display.map_back_buffer(|view, _, _| {
        let mut copy = [0u8; 12];
        copy.copy_from_slice(view);
        read.set(copy);
        Ok(())
    });
    assert!(r.is_ok());
    assert_eq!(read.get(), [1, 2, 3, 4, 5, 6, 7, 8, 9, 10, 11, 12]);
}

#[test]
fn render_failure_comes_back_unchanged() {
    let display = primary_display();
    let r = display.map_back_buffer(|_, _, _| Err(PlatformError::Other("out of ink".into())));
    match r {
        Err(PlatformError::Other(message)) => assert_eq!(message, "out of ink"),
        _ => panic!("the routine's failure should come back as it was"),
    }
    let r = display.map_back_buffer(|_, _, _| Err(PlatformError::NoEventLoopProvider));
    assert!(matches!(r, Err(PlatformError::NoEventLoopProvider)));
}

#[test]
fn mapping_is_released_when_the_routine_fails() {
    let display = primary_display();
    for _ in 0..3 {
        let r = display.map_back_buffer(|view, _, _| {
            view[0] = 9;
            Err(PlatformError::Other("always fails".into()))
        });
        assert!(r.is_err());
    }
    let first = Cell::new(0u8);
    let r = display.map_back_buffer(|view, _, _| {
        first.set(view[0]);
        Ok(())
    });
    assert!(r.is_ok());
    assert_eq!(first.get(), 9);
}

#[test]
fn size_is_stable_across_mappings() {
    let display = primary_display();
    let before = display.size();
    assert_eq!(before, (2, 2));
    for round in 0..10u8 {
        let r = display.map_back_buffer(|view, _, _| {
            view[0] = round;
            if round % 3 == 0 {
                Err(PlatformError::Unsupported)
            } else {
                Ok(())
            }
        });
        assert_eq!(r.is_ok(), round % 3 != 0);
        assert_eq!(display.size(), before);
    }
}

#[test]
fn views_of_one_display_never_overlap() {
    let display = primary_display();
    let renderer = display.clone();
    let presenter = display.clone().as_presenter();
    let currently_mapped = Cell::new(false);
    let rounds = Cell::new(0u32);
    let render = |view: &mut [u8], _: u8, _: DrmFourcc| {
        assert!(!currently_mapped.get());
        currently_mapped.set(true);
        view[1] = view[1].wrapping_add(1);
        rounds.set(rounds.get() + 1);
        currently_mapped.set(false);
        Ok(())
    };
    for _ in 0..4 {
        assert!(display.map_back_buffer(render).is_ok());
        assert!(renderer.map_back_buffer(render).is_ok());
        assert!(presenter.display().map_back_buffer(render).is_ok());
    }
    assert_eq!(rounds.get(), 12);
    let seen = Cell::new(0u8);
    assert!(display
        .map_back_buffer(|view, _, _| {
            seen.set(view[1]);
            Ok(())
        })
        .is_ok());
    assert_eq!(seen.get(), 12);
}

#[test]
fn mapping_failure_is_reported_and_the_session_lives_on() {
    let mut panel = small_panel();
    panel.fail_next_acquire(PlatformError::Other("device busy".into()));
    let display = ActiveDisplay::<MemoryStrategy, MemoryStrategy>::new(
        ActiveStrategy::LegacyFramebuffer(panel),
    );
    let ran = Cell::new(false);
    let r = display.map_back_buffer(|_, _, _| {
        ran.set(true);
        Ok(())
    });
    match r {
        Err(e) => assert_eq!(e.to_string(), "device busy"),
        Ok(()) => panic!("the mapping should have failed"),
    }
    assert!(!ran.get());
    assert_eq!(display.size(), (2, 2));
    let r = display.map_back_buffer(|_, _, _| {
        ran.set(true);
        Ok(())
    });
    assert!(r.is_ok());
    assert!(ran.get());
}

#[test]
fn presenter_shares_the_display() {
    let display = primary_display();
    assert_eq!(Arc::strong_count(&display), 1);
    let presenter: PresenterHandle<Display> = display.clone().as_presenter();
    assert_eq!(Arc::strong_count(&display), 2);
    assert!(Arc::ptr_eq(presenter.display(), &display));
    // What the renderer writes through its handle is what the presenter's
    // handle sees: there is one buffer, not two.
    assert!(display
        .map_back_buffer(|view, _, _| {
            view[3] = 77;
            Ok(())
        })
        .is_ok());
    let seen = Cell::new(0u8);
    assert!(presenter
        .display()
        .map_back_buffer(|view, _, _| {
            seen.set(view[3]);
            Ok(())
        })
        .is_ok());
    assert_eq!(seen.get(), 77);
    assert_eq!(presenter.display().kind(), Strategy::DumbBuffer);
    drop(presenter);
    assert_eq!(Arc::strong_count(&display), 1);
}

#[test]
fn display_over_a_mapped_strategy_releases_it_first() {
    let mut panel = small_panel();
    assert!(panel.acquire().is_ok());
    assert!(panel.is_mapped());
    let display = ActiveDisplay::<MemoryStrategy, MemoryStrategy>::new(
        ActiveStrategy::DumbBuffer(panel),
    );
    assert!(display.map_back_buffer(|_, _, _| Ok(())).is_ok());
}

#[test]
fn strategy_maps_and_releases() {
    let mut panel = small_panel();
    assert_eq!(panel.size(), (2, 2));
    assert_eq!(panel.bytes_per_pixel(), 2);
    assert_eq!(panel.format(), DrmFourcc::Rgb565);
    assert!(!panel.is_mapped());
    let r = panel.map_back_buffer(|view, bytes_per_pixel, _| {
        view[0] = bytes_per_pixel;
        view[11] = 5;
        Ok(())
    });
    assert!(r.is_ok());
    assert!(!panel.is_mapped());
    assert_eq!(panel.pixels(), &[2, 0, 0, 0, 0, 0, 0, 0, 0, 0, 0, 5]);

    let r = panel.map_back_buffer(|view, _, _| {
        view[1] = 8;
        Err(PlatformError::Other("half a frame".into()))
    });
    assert_eq!(r.unwrap_err().to_string(), "half a frame");
    assert!(!panel.is_mapped());
    assert_eq!(panel.pixels(), &[2, 8, 0, 0, 0, 0, 0, 0, 0, 0, 0, 5]);
}

#[test]
fn strategy_acquire_view_release() {
    let mut panel = small_panel();
    assert!(panel.acquire().is_ok());
    assert!(panel.is_mapped());
    panel.view()[2] = 42;
    assert!(panel.is_mapped());
    panel.release();
    assert!(!panel.is_mapped());
    assert_eq!(panel.pixels()[2], 42);
}

#[test]
fn armed_failure_is_reported_once() {
    let mut panel = small_panel();
    panel.fail_next_acquire(PlatformError::Other("allocation exhausted".into()));
    let before = panel.pixels().to_vec();
    let r = panel.map_back_buffer(|view, _, _| {
        view[0] = 1;
        Ok(())
    });
    assert_eq!(r.unwrap_err().to_string(), "allocation exhausted");
    assert!(!panel.is_mapped());
    assert_eq!(panel.pixels(), &before[..]);
    assert!(panel.acquire().is_ok());
    panel.release();
}

#[test]
fn active_strategy_dispatches_to_its_variant() {
    let mut active: ActiveStrategy<MemoryStrategy, MemoryStrategy> = ActiveStrategy::LegacyFramebuffer(
        MemoryStrategy::new(800, 600, 4, DrmFourcc::Xrgb8888, vec![0u8; 16]),
    );
    assert_eq!(active.kind(), Strategy::LegacyFramebuffer);
    assert_eq!(active.size(), (800, 600));
    assert_eq!(active.bytes_per_pixel(), 4);
    assert_eq!(active.format(), DrmFourcc::Xrgb8888);
    let r = active.map_back_buffer(|view, _, _| {
        view[15] = 1;
        Ok(())
    });
    assert!(r.is_ok());
    assert_eq!(active.kind(), Strategy::LegacyFramebuffer);
    match active {
        ActiveStrategy::LegacyFramebuffer(panel) => assert_eq!(panel.pixels()[15], 1),
        ActiveStrategy::DumbBuffer(_) => panic!("the strategy changed"),
    }
}
