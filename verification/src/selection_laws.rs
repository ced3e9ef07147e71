//! What callers may select: products, wiring and transports.

use vstd::prelude::*;

#[allow(unused_imports)]
use crate::abi::{DeviceConfig, GPIO_INVALID_ARGUMENT, GPIO_UNSUPPORTED};
#[allow(unused_imports)]
use crate::bits::{has_pin, lemma_pins_within};
#[allow(unused_imports)]
use crate::config::ValidatedConfig;
#[allow(unused_imports)]
use crate::identity::{is_requested_product, is_supported, UsbDescriptor};
#[allow(unused_imports)]
use crate::parallel_abi::ParallelConfig;
#[allow(unused_imports)]
use crate::parallel_config::{OpenAttempt, ValidatedParallelConfig};
#[allow(unused_imports)]
use crate::profile::Cm119Profile;
#[allow(unused_imports)]
use crate::signal_laws::law_profiles_expose_their_own_pins;
#[allow(unused_imports)]
use crate::topology::topology_of;
#[allow(unused_imports)]
use crate::usb::UsbGoalView;

verus! {

/// With no product requested, exactly six single products and one range of 256 match; a requested
/// product matches itself alone. Supported devices are those of the C-Media vendor among them.
pub proof fn law_product_family(requested: u16, product: u16, descriptor: UsbDescriptor)
    ensures
        is_requested_product(None, product) <==> {
            ||| product == 0x0008 || product == 0x000c || product == 0x0012
            ||| product == 0x0013 || product == 0x013a || product == 0x013c
            ||| 0x6a00 <= product <= 0x6aff
        },
        is_requested_product(Some(requested), product) <==> product == requested,
        is_supported(descriptor) <==> descriptor.id_vendor == 0x0d8c && is_requested_product(
            None,
            descriptor.id_product,
        ),
{
    assert((product & 0xff00 == 0x6a00) == (0x6a00 <= product && product <= 0x6aff))
        by (bit_vector);
}

/// Discovery looks for supported devices; opening and probing look for the configured vendor, and
/// for the configured product or, where none is configured, any of the family.
pub proof fn law_sessions_look_for_what_was_selected(goal: UsbGoalView, descriptor: UsbDescriptor)
    ensures
        goal is Discover ==> goal.wants(descriptor) == is_supported(descriptor),
        goal matches UsbGoalView::Open { config } ==> goal.wants(descriptor) == (
        descriptor.id_vendor == config.vendor_id && is_requested_product(
            config.product_id,
            descriptor.id_product,
        )),
        goal matches UsbGoalView::Probe { config, .. } ==> goal.wants(descriptor) == (
        descriptor.id_vendor == config.vendor_id && is_requested_product(
            config.product_id,
            descriptor.id_product,
        )),
{
}

/// A device selection is accepted exactly when it is complete, of the first ABI version, names a
/// topology and one of four profiles, enables only pins that the profile exposes, and raises only
/// pins that it enables. Vendor and product are never a reason to refuse it.
pub proof fn law_accepted_selections(config: DeviceConfig)
    ensures
        crate::config::is_acceptable(config) <==> {
            &&& config.struct_size >= 40
            &&& config.abi_version == 1
            &&& config.usb_port_path is Some
            &&& topology_of(config.usb_port_path->0@) is Some
            &&& config.ptt_inverted == 0 || config.ptt_inverted == 1
            &&& config.profile < 4
            &&& config.gpio_output_enable_mask < 256
            &&& config.gpio_output_initial_mask < 256
            &&& forall|pin: u32|
                pin < 8 && #[trigger] has_pin(config.gpio_output_enable_mask, pin) ==> (
                config.profile == 0 && pin != 2) || ((config.profile == 1 || config.profile == 3)
                    && pin == 0)
            &&& forall|pin: u32|
                pin < 8 && #[trigger] has_pin(config.gpio_output_initial_mask, pin) ==> has_pin(
                    config.gpio_output_enable_mask,
                    pin,
                )
        },
{
    law_profiles_expose_their_own_pins(config.profile, 0);
    if config.gpio_output_enable_mask < 256 && config.gpio_output_initial_mask < 256
        && config.profile < 4 {
        let profile = Cm119Profile::public(config.profile)->0;
        let enabled = config.gpio_output_enable_mask as u8;
        let initial = config.gpio_output_initial_mask as u8;
        assert(enabled as u32 == config.gpio_output_enable_mask);
        assert(initial as u32 == config.gpio_output_initial_mask);
        lemma_pins_within(enabled, profile.valid_gpio_mask);
        lemma_pins_within(initial, enabled);
        assert forall|pin: u32| pin < 8 implies #[trigger] has_pin(
            profile.valid_gpio_mask as u32,
            pin,
        ) == ((config.profile == 0 && pin != 2) || ((config.profile == 1 || config.profile == 3)
            && pin == 0)) by {
            law_profiles_expose_their_own_pins(config.profile, pin);
        }
        if forall|pin: u32|
            pin < 8 && #[trigger] has_pin(config.gpio_output_enable_mask, pin) ==> (config.profile
                == 0 && pin != 2) || ((config.profile == 1 || config.profile == 3) && pin == 0) {
            assert forall|pin: u32|
                #![trigger has_pin(enabled as u32, pin)]
                pin < 8 && has_pin(enabled as u32, pin) implies has_pin(
                profile.valid_gpio_mask as u32,
                pin,
            ) by {
                law_profiles_expose_their_own_pins(config.profile, pin);
            }
        }
        if enabled & !profile.valid_gpio_mask == 0 {
            assert forall|pin: u32|
                pin < 8 && #[trigger] has_pin(config.gpio_output_enable_mask, pin) implies (
            config.profile == 0 && pin != 2) || ((config.profile == 1 || config.profile == 3) && pin
                == 0) by {
                assert(has_pin(enabled as u32, pin));
                assert(has_pin(profile.valid_gpio_mask as u32, pin));
            }
        }
    }
}

/// The setup of an accepted selection is what was selected; an omitted vendor is C-Media, and an
/// omitted product any of the family.
pub proof fn law_setup_is_what_was_selected(config: DeviceConfig, setup: ValidatedConfig)
    requires
        setup.is_setup_of(config),
    ensures
        topology_of(config.usb_port_path->0@) == Some(setup.usb_port_path@),
        config.vendor_id == 0 ==> setup.vendor_id == 0x0d8c,
        config.vendor_id != 0 ==> setup.vendor_id == config.vendor_id,
        config.product_id == 0 ==> setup.product_id is None,
        config.product_id != 0 ==> setup.product_id == Some(config.product_id),
        Cm119Profile::public(config.profile) == Some(setup.profile),
        setup.ptt_inverted == (config.ptt_inverted != 0),
        setup.gpio_output_enable_mask == config.gpio_output_enable_mask,
        setup.gpio_output_initial_mask == config.gpio_output_initial_mask,
{
}

/// A parallel-port selection is accepted exactly when it is complete, of the first ABI version,
/// raises only data pins that it enables, names a ppdev node by an absolute path if at all, and
/// offers the transport it selects: a node without an embedded zero byte for ppdev, a base that
/// leaves room for the status port for raw I/O, either of them for automatic selection.
pub proof fn law_accepted_port_selections(config: ParallelConfig)
    ensures
        crate::parallel_config::is_acceptable(config) <==> {
            let node = config.ppdev_path is Some && !(config.ppdev_path->0@.contains(0));
            let base = 1 <= config.raw_io_base <= 0xfffe;
            &&& config.struct_size >= 40
            &&& config.abi_version == 1
            &&& config.output_enable_mask < 256
            &&& config.output_initial_mask < 256
            &&& forall|pin: u32|
                pin < 8 && #[trigger] has_pin(config.output_initial_mask, pin) ==> has_pin(
                    config.output_enable_mask,
                    pin,
                )
            &&& config.ppdev_path is Some ==> config.ppdev_path->0@.len() > 0
                && config.ppdev_path->0@[0] == 0x2f
            &&& {
                ||| config.transport == 1 && node
                ||| config.transport == 2 && base
                ||| config.transport == 0 && (node || base)
            }
        },
{
    let enabled = config.output_enable_mask as u8;
    let initial = config.output_initial_mask as u8;
    lemma_pins_within(initial, enabled);
    assert(config.output_enable_mask <= 0xff ==> enabled as u32 == config.output_enable_mask);
    assert(config.output_initial_mask <= 0xff ==> initial as u32 == config.output_initial_mask);
}

/// The setup of an accepted port selection is what was selected.
pub proof fn law_port_setup_is_what_was_selected(
    config: ParallelConfig,
    setup: ValidatedParallelConfig,
)
    requires
        setup.is_setup_of(config),
    ensures
        setup.transport == config.transport,
        setup.ppdev_path is Some <==> config.ppdev_path is Some
            && !config.ppdev_path->0@.contains(0),
        setup.ppdev_path is Some ==> setup.ppdev_path->0@ == config.ppdev_path->0@,
        setup.raw_io_base is Some <==> 1 <= config.raw_io_base <= 0xfffe,
        setup.raw_io_base is Some ==> setup.raw_io_base->0 == config.raw_io_base,
        setup.output_enable_mask == config.output_enable_mask,
        setup.output_initial_mask == config.output_initial_mask,
{
}

/// Transports are tried in one order. Selecting ppdev tries the node and reports how that failed.
/// Selecting raw I/O tries the range. Automatic selection tries the node, if there is one, and the
/// range behind it. A target without direct I/O has no range to try.
pub proof fn law_transports_are_tried_in_order(
    setup: ValidatedParallelConfig,
    failed: OpenAttempt,
    error: i32,
    direct_io: bool,
)
    ensures
        ({
            let node = setup.ppdev_path is Some;
            let first = setup.first_open(direct_io);
            let next = setup.open_after(failed, error, direct_io);
            let range = if !direct_io {
                OpenAttempt::Refused(GPIO_UNSUPPORTED)
            } else if setup.raw_io_base is Some {
                OpenAttempt::RawIo(setup.raw_io_base->0)
            } else {
                OpenAttempt::Refused(GPIO_INVALID_ARGUMENT)
            };
            &&& setup.transport <= 1 && node ==> first is Ppdev
            &&& setup.transport == 1 && !node ==> first == OpenAttempt::Refused(GPIO_INVALID_ARGUMENT)
            &&& setup.transport == 2 || (setup.transport == 0 && !node) ==> first == range
            &&& setup.transport > 2 ==> first == OpenAttempt::Refused(GPIO_INVALID_ARGUMENT)
            &&& failed is Ppdev && setup.transport == 0 ==> next == range
            &&& failed !is Ppdev || setup.transport != 0 ==> next == OpenAttempt::Refused(error)
        }),
{
}

} // verus!
