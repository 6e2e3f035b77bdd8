//! The SETTINGS frame payload: an optional value per standard parameter, an
//! ACK flag, an emission order, and optional experimental settings; owns
//! decoding (`load`) and encoding.

use crate::buf::buf_bytes;
use crate::experimental::ExperimentalSettings;
use crate::flags::{ack_bit_set, SettingsFlags};
use crate::frame::{
    head_bytes, Error, Head, DEFAULT_MAX_FRAME_SIZE, KIND_SETTINGS, MAX_INITIAL_WINDOW_SIZE,
    MAX_MAX_FRAME_SIZE,
};
use crate::ids::{constructible, is_standard_code, spec_code, spec_from_code, SettingId};
use crate::order::{default_codes, SettingsOrder};
use crate::setting::{record_bytes, record_code, record_value, Setting};
use vstd::prelude::*;
use vstd::slice::slice_subrange;

verus! {

/// The mathematical value of a `Settings`: the ACK bit, one optional value
/// per standard parameter, the emission order as wire codes, and the
/// attached experimental settings, if any.
#[verifier::ext_equal]
pub struct SettingsView {
    pub ack: bool,
    pub header_table_size: Option<u32>,
    pub enable_push: Option<u32>,
    pub max_concurrent_streams: Option<u32>,
    pub initial_window_size: Option<u32>,
    pub max_frame_size: Option<u32>,
    pub max_header_list_size: Option<u32>,
    pub enable_connect_protocol: Option<u32>,
    pub no_rfc7540_priorities: Option<u32>,
    pub order: Seq<u16>,
    pub experimental: Option<Seq<(u16, u32)>>,
}

/// The value a freshly constructed, non-ACK settings set denotes: nothing
/// present, canonical order, no experimental settings.
pub open spec fn empty_settings_view() -> SettingsView {
    SettingsView {
        ack: false,
        header_table_size: None,
        enable_push: None,
        max_concurrent_streams: None,
        initial_window_size: None,
        max_frame_size: None,
        max_header_list_size: None,
        enable_connect_protocol: None,
        no_rfc7540_priorities: None,
        order: default_codes(),
        experimental: None,
    }
}

/// The canonical ACK value: the ACK bit and nothing else.
pub open spec fn ack_settings_view() -> SettingsView {
    SettingsView { ack: true, ..empty_settings_view() }
}

/// The stored value of the standard parameter with wire code `c`.
pub open spec fn field_of(v: SettingsView, c: u16) -> Option<u32> {
    if c == 1 {
        v.header_table_size
    } else if c == 2 {
        v.enable_push
    } else if c == 3 {
        v.max_concurrent_streams
    } else if c == 4 {
        v.initial_window_size
    } else if c == 5 {
        v.max_frame_size
    } else if c == 6 {
        v.max_header_list_size
    } else if c == 8 {
        v.enable_connect_protocol
    } else if c == 9 {
        v.no_rfc7540_priorities
    } else {
        None
    }
}

/// The view with the standard parameter of wire code `c` set to `x`.
pub open spec fn set_field(v: SettingsView, c: u16, x: u32) -> SettingsView {
    if c == 1 {
        SettingsView { header_table_size: Some(x), ..v }
    } else if c == 2 {
        SettingsView { enable_push: Some(x), ..v }
    } else if c == 3 {
        SettingsView { max_concurrent_streams: Some(x), ..v }
    } else if c == 4 {
        SettingsView { initial_window_size: Some(x), ..v }
    } else if c == 5 {
        SettingsView { max_frame_size: Some(x), ..v }
    } else if c == 6 {
        SettingsView { max_header_list_size: Some(x), ..v }
    } else if c == 8 {
        SettingsView { enable_connect_protocol: Some(x), ..v }
    } else if c == 9 {
        SettingsView { no_rfc7540_priorities: Some(x), ..v }
    } else {
        v
    }
}

/// The validation domain of each standard parameter: boolean-like for
/// EnablePush, EnableConnectProtocol and NoRfc7540Priorities; at most
/// 2^31 - 1 for InitialWindowSize; within [16384, 2^24 - 1] for
/// MaxFrameSize; free-form for the rest.
pub open spec fn value_ok(c: u16, x: u32) -> bool {
    if c == 2 || c == 8 || c == 9 {
        x == 0 || x == 1
    } else if c == 4 {
        x <= MAX_INITIAL_WINDOW_SIZE
    } else if c == 5 {
        DEFAULT_MAX_FRAME_SIZE <= x <= MAX_MAX_FRAME_SIZE
    } else {
        true
    }
}

/// The 6-byte record in place `k` of a payload: its wire code.
pub open spec fn record_code_at(p: Seq<u8>, k: int) -> u16 {
    record_code(p.subrange(6 * k, 6 * k + 6))
}

/// The 6-byte record in place `k` of a payload: its value.
pub open spec fn record_value_at(p: Seq<u8>, k: int) -> u32 {
    record_value(p.subrange(6 * k, 6 * k + 6))
}

/// What one decoded record does to the assembled value: a standard
/// parameter is validated and stored, everything else contributes nothing.
pub open spec fn decode_step(v: SettingsView, c: u16, x: u32) -> Result<SettingsView, Error> {
    if is_standard_code(c) {
        if value_ok(c, x) {
            Ok(set_field(v, c, x))
        } else {
            Err(Error::InvalidSettingValue)
        }
    } else {
        Ok(v)
    }
}

/// The value assembled from the first `k` records of a non-ACK payload, or
/// the error that aborted the decode.
pub open spec fn decode_prefix(p: Seq<u8>, k: int) -> Result<SettingsView, Error>
    decreases k,
{
    if k <= 0 {
        Ok(empty_settings_view())
    } else {
        match decode_prefix(p, k - 1) {
            Ok(v) => decode_step(v, record_code_at(p, k - 1), record_value_at(p, k - 1)),
            Err(e) => Err(e),
        }
    }
}

/// What a whole non-ACK payload decodes to.
pub open spec fn decode_payload(p: Seq<u8>) -> Result<SettingsView, Error> {
    decode_prefix(p, p.len() as int / 6)
}

/// A decode error is final: every longer prefix reports the same error.
pub proof fn lemma_decode_prefix_err(p: Seq<u8>, k: int, n: int)
    requires
        0 <= k <= n,
        decode_prefix(p, k) is Err,
    ensures
        decode_prefix(p, n) == decode_prefix(p, k),
    decreases n,
{
    if n > k {
        lemma_decode_prefix_err(p, k, n - 1);
    }
}

/// The value of the first experimental setting carrying code `c`, looked
/// up from place `i` on.
pub open spec fn exp_lookup_from(xs: Seq<(u16, u32)>, c: u16, i: int) -> Option<u32>
    decreases xs.len() - i,
{
    if i < 0 || i >= xs.len() {
        None
    } else if xs[i].0 == c {
        Some(xs[i].1)
    } else {
        exp_lookup_from(xs, c, i + 1)
    }
}

/// The value of the first experimental setting carrying code `c`.
pub open spec fn exp_lookup(xs: Seq<(u16, u32)>, c: u16) -> Option<u32> {
    exp_lookup_from(xs, c, 0)
}

/// The bytes one slot of the order contributes: the record of a present
/// standard parameter; at an unknown slot, the record of the attached
/// experimental setting carrying that code; otherwise nothing.
pub open spec fn emit_at(v: SettingsView, c: u16) -> Seq<u8> {
    if is_standard_code(c) {
        match field_of(v, c) {
            Some(x) => record_bytes(c, x),
            None => Seq::empty(),
        }
    } else {
        match v.experimental {
            Some(xs) => match exp_lookup(xs, c) {
                Some(x) => record_bytes(c, x),
                None => Seq::empty(),
            },
            None => Seq::empty(),
        }
    }
}

/// The payload bytes contributed by the first `k` slots of the order.
pub open spec fn payload_prefix(v: SettingsView, k: int) -> Seq<u8>
    decreases k,
{
    if k <= 0 {
        Seq::empty()
    } else {
        payload_prefix(v, k - 1) + emit_at(v, v.order[k - 1])
    }
}

/// The whole encoded payload of a settings set.
pub open spec fn payload_bytes(v: SettingsView) -> Seq<u8> {
    payload_prefix(v, v.order.len() as int)
}

/// The wire flag byte of a settings set: the ACK bit or nothing.
pub open spec fn flag_byte(ack: bool) -> u8 {
    if ack {
        1u8
    } else {
        0u8
    }
}

/// The SETTINGS frame payload.
pub struct Settings {
    flags: SettingsFlags,
    header_table_size: Option<u32>,
    enable_push: Option<u32>,
    max_concurrent_streams: Option<u32>,
    initial_window_size: Option<u32>,
    max_frame_size: Option<u32>,
    max_header_list_size: Option<u32>,
    enable_connect_protocol: Option<u32>,
    no_rfc7540_priorities: Option<u32>,
    experimental_settings: Option<ExperimentalSettings>,
    settings_order: SettingsOrder,
}

impl View for Settings {
    type V = SettingsView;

    closed spec fn view(&self) -> SettingsView {
        SettingsView {
            ack: self.flags.spec_is_ack(),
            header_table_size: self.header_table_size,
            enable_push: self.enable_push,
            max_concurrent_streams: self.max_concurrent_streams,
            initial_window_size: self.initial_window_size,
            max_frame_size: self.max_frame_size,
            max_header_list_size: self.max_header_list_size,
            enable_connect_protocol: self.enable_connect_protocol,
            no_rfc7540_priorities: self.no_rfc7540_priorities,
            order: self.settings_order@,
            experimental: match self.experimental_settings {
                Some(x) => Some(x@),
                None => None,
            },
        }
    }
}

impl Settings {
    /// Structural well-formedness: the flag byte holds at most the ACK bit,
    /// the order is frozen and complete, and the attached experimental
    /// settings, if any, are well-formed.
    pub closed spec fn wf(&self) -> bool {
        &&& self.flags.wf()
        &&& self.settings_order.wf()
        &&& (self.experimental_settings matches Some(x) ==> x.wf())
    }

    /// The canonical ACK value: the ACK flag, no parameters, no
    /// experimental settings.
    pub fn ack() -> (r: Settings)
        ensures
            r.wf(),
            r@ == ack_settings_view(),
    {
        let mut r = Settings::default();
        r.flags = SettingsFlags::ack();
        proof {
            assert(r@ =~= ack_settings_view());
        }
        r
    }

    /// Whether this is an ACK settings set.
    pub fn is_ack(&self) -> (r: bool)
        requires
            self.wf(),
        ensures
            r == self@.ack,
    {
        self.flags.is_ack()
    }

    /// The stored InitialWindowSize, if present.
    pub fn initial_window_size(&self) -> (r: Option<u32>)
        ensures
            r == self@.initial_window_size,
    {
        self.initial_window_size
    }

    /// Stores or clears InitialWindowSize.
    pub fn set_initial_window_size(&mut self, size: Option<u32>)
        ensures
            final(self)@ == (SettingsView { initial_window_size: size, ..old(self)@ }),
            old(self).wf() ==> final(self).wf(),
    {
        self.initial_window_size = size;
    }

    /// The stored MaxConcurrentStreams, if present.
    pub fn max_concurrent_streams(&self) -> (r: Option<u32>)
        ensures
            r == self@.max_concurrent_streams,
    {
        self.max_concurrent_streams
    }

    /// Stores or clears MaxConcurrentStreams.
    pub fn set_max_concurrent_streams(&mut self, max: Option<u32>)
        ensures
            final(self)@ == (SettingsView { max_concurrent_streams: max, ..old(self)@ }),
            old(self).wf() ==> final(self).wf(),
    {
        self.max_concurrent_streams = max;
    }

    /// The stored MaxFrameSize, if present.
    pub fn max_frame_size(&self) -> (r: Option<u32>)
        ensures
            r == self@.max_frame_size,
    {
        self.max_frame_size
    }

    /// Stores or clears MaxFrameSize. Local construction of an
    /// out-of-range value is a contract violation, not a recoverable
    /// error, so the range is required rather than checked.
    pub fn set_max_frame_size(&mut self, size: Option<u32>)
        requires
            size matches Some(v) ==> DEFAULT_MAX_FRAME_SIZE <= v <= MAX_MAX_FRAME_SIZE,
        ensures
            final(self)@ == (SettingsView { max_frame_size: size, ..old(self)@ }),
            old(self).wf() ==> final(self).wf(),
    {
        self.max_frame_size = size;
    }

    /// The stored MaxHeaderListSize, if present.
    pub fn max_header_list_size(&self) -> (r: Option<u32>)
        ensures
            r == self@.max_header_list_size,
    {
        self.max_header_list_size
    }

    /// Stores or clears MaxHeaderListSize.
    pub fn set_max_header_list_size(&mut self, size: Option<u32>)
        ensures
            final(self)@ == (SettingsView { max_header_list_size: size, ..old(self)@ }),
            old(self).wf() ==> final(self).wf(),
    {
        self.max_header_list_size = size;
    }

    /// Whether server push is enabled, if EnablePush is present.
    pub fn is_push_enabled(&self) -> (r: Option<bool>)
        ensures
            r == match self@.enable_push {
                Some(v) => Some(v != 0),
                None => None,
            },
    {
        match self.enable_push {
            Some(v) => Some(v != 0),
            None => None,
        }
    }

    /// Stores EnablePush as the boolean's wire value.
    pub fn set_enable_push(&mut self, enable: bool)
        ensures
            final(self)@ == (SettingsView {
                enable_push: Some(
                    if enable {
                        1u32
                    } else {
                        0u32
                    },
                ),
                ..old(self)@
            }),
            old(self).wf() ==> final(self).wf(),
    {
        self.enable_push = Some(
            if enable {
                1
            } else {
                0
            },
        );
    }

    /// Whether the Extended CONNECT protocol is enabled, if present.
    pub fn is_extended_connect_protocol_enabled(&self) -> (r: Option<bool>)
        ensures
            r == match self@.enable_connect_protocol {
                Some(v) => Some(v != 0),
                None => None,
            },
    {
        match self.enable_connect_protocol {
            Some(v) => Some(v != 0),
            None => None,
        }
    }

    /// Stores or clears EnableConnectProtocol.
    pub fn set_enable_connect_protocol(&mut self, val: Option<u32>)
        ensures
            final(self)@ == (SettingsView { enable_connect_protocol: val, ..old(self)@ }),
            old(self).wf() ==> final(self).wf(),
    {
        self.enable_connect_protocol = val;
    }

    /// The stored HeaderTableSize, if present.
    pub fn header_table_size(&self) -> (r: Option<u32>)
        ensures
            r == self@.header_table_size,
    {
        self.header_table_size
    }

    /// Stores or clears HeaderTableSize.
    pub fn set_header_table_size(&mut self, size: Option<u32>)
        ensures
            final(self)@ == (SettingsView { header_table_size: size, ..old(self)@ }),
            old(self).wf() ==> final(self).wf(),
    {
        self.header_table_size = size;
    }

    /// Stores NoRfc7540Priorities as the boolean's wire value.
    pub fn set_no_rfc7540_priorities(&mut self, enable: bool)
        ensures
            final(self)@ == (SettingsView {
                no_rfc7540_priorities: Some(
                    if enable {
                        1u32
                    } else {
                        0u32
                    },
                ),
                ..old(self)@
            }),
            old(self).wf() ==> final(self).wf(),
    {
        self.no_rfc7540_priorities = Some(
            if enable {
                1
            } else {
                0
            },
        );
    }

    /// Attaches experimental settings to an outgoing settings set.
    pub fn set_experimental_settings(&mut self, experimental_settings: ExperimentalSettings)
        requires
            experimental_settings.wf(),
        ensures
            final(self)@ == (SettingsView {
                experimental: Some(experimental_settings@),
                ..old(self)@
            }),
            old(self).wf() ==> final(self).wf(),
    {
        self.experimental_settings = Some(experimental_settings);
    }

    /// Replaces the emission order.
    pub fn set_settings_order(&mut self, settings_order: SettingsOrder)
        requires
            settings_order.wf(),
        ensures
            final(self)@ == (SettingsView { order: settings_order@, ..old(self)@ }),
            old(self).wf() ==> final(self).wf(),
    {
        self.settings_order = settings_order;
    }

    /// Decodes a SETTINGS frame: rejects a frame off the connection-control
    /// stream, returns the canonical ACK value for an empty ACK payload,
    /// and otherwise assembles the records of the payload, validating each
    /// recognized parameter and discarding unrecognized codes.
    pub fn load(head: Head, payload: &[u8]) -> (r: Result<Settings, Error>)
        ensures
            head.stream_id != 0 ==> r == Err::<Settings, Error>(Error::InvalidStreamId),
            head.stream_id == 0 && ack_bit_set(head.flag) && payload@.len() != 0 ==> r == Err::<
                Settings,
                Error,
            >(Error::InvalidPayloadLength),
            head.stream_id == 0 && ack_bit_set(head.flag) && payload@.len() == 0 ==> (r matches Ok(
                s,
            ) && s@ == ack_settings_view() && s.wf()),
            head.stream_id == 0 && !ack_bit_set(head.flag) && payload@.len() % 6 != 0 ==> r
                == Err::<Settings, Error>(Error::InvalidPayloadAckSettings),
            head.stream_id == 0 && !ack_bit_set(head.flag) && payload@.len() % 6 == 0 ==> match (
                r,
                decode_payload(payload@),
            ) {
                (Ok(s), Ok(v)) => s@ == v && s.wf(),
                (Err(e1), Err(e2)) => e1 == e2,
                _ => false,
            },
    {
        if head.stream_id() != 0 {
            return Err(Error::InvalidStreamId);
        }
        let flag = SettingsFlags::load(head.flag());
        if flag.is_ack() {
            if payload.len() != 0 {
                return Err(Error::InvalidPayloadLength);
            }
            return Ok(Settings::ack());
        }
        if payload.len() % 6 != 0 {
            return Err(Error::InvalidPayloadAckSettings);
        }
        let mut settings = Settings::default();
        let n = payload.len() / 6;
        let mut k: usize = 0;
        while k < n
            invariant
                head.stream_id == 0,
                !ack_bit_set(head.flag),
                payload@.len() % 6 == 0,
                n == payload@.len() / 6,
                payload@.len() as int == 6 * (n as int),
                6 * (n as int) <= usize::MAX,
                k <= n,
                settings.wf(),
                decode_prefix(payload@, k as int) == Ok::<SettingsView, Error>(settings@),
            decreases n - k,
        {
            let ghost pre = settings@;
            let raw = slice_subrange(payload, k * 6, k * 6 + 6);
            proof {
                assert(raw@ =~= payload@.subrange(6 * (k as int), 6 * (k as int) + 6));
            }
            let ghost c = record_code_at(payload@, k as int);
            let ghost x = record_value_at(payload@, k as int);
            if let Some(setting) = Setting::load(raw) {
                proof {
                    assert(setting.spec_id() == spec_from_code(c));
                    assert(setting.spec_value() == x);
                }
                match setting.id() {
                    SettingId::HeaderTableSize => {
                        settings.header_table_size = Some(setting.value());
                    },
                    SettingId::EnablePush => {
                        let v = setting.value();
                        if v == 0 || v == 1 {
                            settings.enable_push = Some(v);
                        } else {
                            proof {
                                assert(c == 2);
                                assert(decode_prefix(payload@, k as int + 1) is Err);
                                lemma_decode_prefix_err(payload@, k as int + 1, n as int);
                            }
                            return Err(Error::InvalidSettingValue);
                        }
                    },
                    SettingId::MaxConcurrentStreams => {
                        settings.max_concurrent_streams = Some(setting.value());
                    },
                    SettingId::InitialWindowSize => {
                        let v = setting.value();
                        if v > MAX_INITIAL_WINDOW_SIZE {
                            proof {
                                assert(c == 4);
                                assert(decode_prefix(payload@, k as int + 1) is Err);
                                lemma_decode_prefix_err(payload@, k as int + 1, n as int);
                            }
                            return Err(Error::InvalidSettingValue);
                        } else {
                            settings.initial_window_size = Some(v);
                        }
                    },
                    SettingId::MaxFrameSize => {
                        let v = setting.value();
                        if DEFAULT_MAX_FRAME_SIZE <= v && v <= MAX_MAX_FRAME_SIZE {
                            settings.max_frame_size = Some(v);
                        } else {
                            proof {
                                assert(c == 5);
                                assert(decode_prefix(payload@, k as int + 1) is Err);
                                lemma_decode_prefix_err(payload@, k as int + 1, n as int);
                            }
                            return Err(Error::InvalidSettingValue);
                        }
                    },
                    SettingId::MaxHeaderListSize => {
                        settings.max_header_list_size = Some(setting.value());
                    },
                    SettingId::EnableConnectProtocol => {
                        let v = setting.value();
                        if v == 0 || v == 1 {
                            settings.enable_connect_protocol = Some(v);
                        } else {
                            proof {
                                assert(c == 8);
                                assert(decode_prefix(payload@, k as int + 1) is Err);
                                lemma_decode_prefix_err(payload@, k as int + 1, n as int);
                            }
                            return Err(Error::InvalidSettingValue);
                        }
                    },
                    SettingId::NoRfc7540Priorities => {
                        let v = setting.value();
                        if v == 0 || v == 1 {
                            settings.no_rfc7540_priorities = Some(v);
                        } else {
                            proof {
                                assert(c == 9);
                                assert(decode_prefix(payload@, k as int + 1) is Err);
                                lemma_decode_prefix_err(payload@, k as int + 1, n as int);
                            }
                            return Err(Error::InvalidSettingValue);
                        }
                    },
                    SettingId::Unknown(_) => {
                        // Unrecognized codes are tolerated and contribute
                        // nothing to the result.
                    },
                }
            }
            proof {
                assert(decode_prefix(payload@, k as int + 1) == Ok::<SettingsView, Error>(
                    settings@,
                )) by {
                    assert(decode_prefix(payload@, k as int) == Ok::<SettingsView, Error>(pre));
                    if constructible(spec_from_code(c)) {
                        if is_standard_code(c) {
                            assert(settings@ =~= set_field(pre, c, x));
                        }
                    } else {
                        assert(!is_standard_code(c));
                    }
                }
            }
            k += 1;
        }
        Ok(settings)
    }

    /// The setting one slot of the order emits, if any: a present standard
    /// parameter's value under its own identifier, or, at an unknown slot,
    /// the attached experimental setting carrying that code.
    fn emitted_setting(&self, id: SettingId) -> (r: Option<Setting>)
        requires
            self.wf(),
            spec_from_code(spec_code(id)) == id,
        ensures
            r matches Some(st) ==> st.spec_id() == id && emit_at(self@, spec_code(id))
                == record_bytes(spec_code(id), st.spec_value()),
            r is None ==> emit_at(self@, spec_code(id)) == Seq::<u8>::empty(),
    {
        match id {
            SettingId::HeaderTableSize => match self.header_table_size {
                Some(v) => Setting::from_id(id, v),
                None => None,
            },
            SettingId::EnablePush => match self.enable_push {
                Some(v) => Setting::from_id(id, v),
                None => None,
            },
            SettingId::MaxConcurrentStreams => match self.max_concurrent_streams {
                Some(v) => Setting::from_id(id, v),
                None => None,
            },
            SettingId::InitialWindowSize => match self.initial_window_size {
                Some(v) => Setting::from_id(id, v),
                None => None,
            },
            SettingId::MaxFrameSize => match self.max_frame_size {
                Some(v) => Setting::from_id(id, v),
                None => None,
            },
            SettingId::MaxHeaderListSize => match self.max_header_list_size {
                Some(v) => Setting::from_id(id, v),
                None => None,
            },
            SettingId::EnableConnectProtocol => match self.enable_connect_protocol {
                Some(v) => Setting::from_id(id, v),
                None => None,
            },
            SettingId::NoRfc7540Priorities => match self.no_rfc7540_priorities {
                Some(v) => Setting::from_id(id, v),
                None => None,
            },
            SettingId::Unknown(code) => {
                proof {
                    assert(!is_standard_code(code));
                }
                match &self.experimental_settings {
                    Some(xs) => {
                        let nx = xs.len();
                        let mut i: usize = 0;
                        while i < nx
                            invariant
                                xs.wf(),
                                nx == xs@.len(),
                                i <= nx,
                                exp_lookup(xs@, code) == exp_lookup_from(xs@, code, i as int),
                                !is_standard_code(code),
                                id == SettingId::Unknown(code),
                                self@.experimental == Some(xs@),
                            decreases nx - i,
                        {
                            let st = xs.get(i);
                            match st.id() {
                                SettingId::Unknown(c2) => {
                                    if c2 == code {
                                        return Some(st);
                                    }
                                },
                                _ => {},
                            }
                            i += 1;
                        }
                        None
                    },
                    None => None,
                }
            },
        }
    }

    /// The payload length `encode` writes into the head: six bytes per
    /// emitted record.
    fn payload_len(&self) -> (r: usize)
        requires
            self.wf(),
        ensures
            r as int == payload_bytes(self@).len(),
            r <= 90,
    {
        proof {
            crate::order::lemma_codes_wf_len(self@.order);
        }
        let n = self.settings_order.len();
        let mut len: usize = 0;
        let mut i: usize = 0;
        while i < n
            invariant
                self.wf(),
                n == self@.order.len(),
                n <= 15,
                i <= n,
                len as int == payload_prefix(self@, i as int).len(),
                len <= 6 * i,
            decreases n - i,
        {
            let id = self.settings_order.get(i);
            proof {
                assert(spec_code(spec_from_code(self@.order[i as int])) == self@.order[i as int]);
            }
            if self.emitted_setting(id).is_some() {
                len = len + 6;
            }
            i += 1;
        }
        len
    }

    /// Encodes the frame: the nine header bytes (SETTINGS kind, this set's
    /// flags, the connection-control stream), then one 6-byte record per
    /// present value, in the order the settings order dictates. An ACK set
    /// emits no records, since all its parameters are absent.
    pub fn encode(&self, dst: &mut bytes::BytesMut)
        requires
            self.wf(),
        ensures
            buf_bytes(*final(dst)) == buf_bytes(*old(dst)) + head_bytes(
                payload_bytes(self@).len() as int,
                KIND_SETTINGS,
                flag_byte(self@.ack),
                0,
            ) + payload_bytes(self@),
    {
        let ghost base = buf_bytes(*dst);
        let ghost hb = head_bytes(
            payload_bytes(self@).len() as int,
            KIND_SETTINGS,
            flag_byte(self@.ack),
            0,
        );
        let payload_len = self.payload_len();
        let head = Head::new(KIND_SETTINGS, self.flags.bits(), 0);
        proof {
            assert(self.flags.spec_bits() == flag_byte(self@.ack));
        }
        head.encode(payload_len, dst);
        let n = self.settings_order.len();
        let mut i: usize = 0;
        while i < n
            invariant
                self.wf(),
                n == self@.order.len(),
                i <= n,
                hb == head_bytes(
                    payload_bytes(self@).len() as int,
                    KIND_SETTINGS,
                    flag_byte(self@.ack),
                    0,
                ),
                buf_bytes(*dst) == base + hb + payload_prefix(self@, i as int),
            decreases n - i,
        {
            let id = self.settings_order.get(i);
            proof {
                assert(spec_code(spec_from_code(self@.order[i as int])) == self@.order[i as int]);
            }
            match self.emitted_setting(id) {
                Some(st) => {
                    st.encode(dst);
                },
                None => {},
            }
            proof {
                assert(buf_bytes(*dst) =~= base + hb + payload_prefix(self@, i as int + 1));
            }
            i += 1;
        }
    }
}

impl Default for Settings {
    /// A settings set with nothing present and the canonical order.
    fn default() -> (r: Settings)
        ensures
            r.wf(),
            r@ == empty_settings_view(),
    {
        let r = Settings {
            flags: SettingsFlags::empty(),
            header_table_size: None,
            enable_push: None,
            max_concurrent_streams: None,
            initial_window_size: None,
            max_frame_size: None,
            max_header_list_size: None,
            enable_connect_protocol: None,
            no_rfc7540_priorities: None,
            experimental_settings: None,
            settings_order: SettingsOrder::default(),
        };
        proof {
            assert(r@ =~= empty_settings_view());
        }
        r
    }
}

impl Clone for Settings {
    /// The copy denotes the same value.
    fn clone(&self) -> (r: Self)
        ensures
            r@ == self@,
            self.wf() ==> r.wf(),
    {
        let r = Settings {
            flags: self.flags,
            header_table_size: self.header_table_size,
            enable_push: self.enable_push,
            max_concurrent_streams: self.max_concurrent_streams,
            initial_window_size: self.initial_window_size,
            max_frame_size: self.max_frame_size,
            max_header_list_size: self.max_header_list_size,
            enable_connect_protocol: self.enable_connect_protocol,
            no_rfc7540_priorities: self.no_rfc7540_priorities,
            experimental_settings: match &self.experimental_settings {
                Some(x) => Some(x.clone()),
                None => None,
            },
            settings_order: self.settings_order.clone(),
        };
        proof {
            assert(r@ =~~= self@);
        }
        r
    }
}

/// With every parameter absent and no experimental settings attached, no
/// slot of the order emits anything.
proof fn lemma_absent_payload_prefix_empty(v: SettingsView, k: int)
    requires
        0 <= k <= v.order.len(),
        v.header_table_size is None,
        v.enable_push is None,
        v.max_concurrent_streams is None,
        v.initial_window_size is None,
        v.max_frame_size is None,
        v.max_header_list_size is None,
        v.enable_connect_protocol is None,
        v.no_rfc7540_priorities is None,
        v.experimental is None,
    ensures
        payload_prefix(v, k).len() == 0,
    decreases k,
{
    if k > 0 {
        lemma_absent_payload_prefix_empty(v, k - 1);
    }
}

/// ACK settings always encode to a frame with payload length zero: an ACK
/// set carries no parameters and no experimental settings by invariant, so
/// no slot of its order emits a record, whatever the order says.
pub proof fn lemma_ack_payload_empty(v: SettingsView)
    requires
        v.header_table_size is None,
        v.enable_push is None,
        v.max_concurrent_streams is None,
        v.initial_window_size is None,
        v.max_frame_size is None,
        v.max_header_list_size is None,
        v.enable_connect_protocol is None,
        v.no_rfc7540_priorities is None,
        v.experimental is None,
    ensures
        payload_bytes(v).len() == 0,
{
    lemma_absent_payload_prefix_empty(v, v.order.len() as int);
}

/// The canonical ACK value in particular encodes to an empty payload.
pub proof fn lemma_ack_view_payload_empty()
    ensures
        payload_bytes(ack_settings_view()).len() == 0,
{
    lemma_ack_payload_empty(ack_settings_view());
}

/// Packing a 16-bit integer into two big-endian bytes loses nothing.
proof fn lemma_be16_round_trip(c: u16)
    by (bit_vector)
    ensures
        ((((c / 256) as u8) as int) * 256 + (((c % 256) as u8) as int)) == c as int,
{
}

/// Packing a 32-bit integer into four big-endian bytes loses nothing.
proof fn lemma_be32_round_trip(x: u32)
    by (bit_vector)
    ensures
        (((x / 0x1000000) as u8) as int) * 0x1000000 + ((((x / 0x10000) % 256) as u8) as int)
            * 0x10000 + ((((x / 256) % 256) as u8) as int) * 256 + (((x % 256) as u8) as int)
            == x as int,
{
}

/// An encoded record reads back as the code and value it was made from.
proof fn lemma_record_extract(c: u16, x: u32)
    ensures
        record_bytes(c, x).len() == 6,
        record_code(record_bytes(c, x)) == c,
        record_value(record_bytes(c, x)) == x,
{
    let rec = record_bytes(c, x);
    assert(rec[0] == (c / 256) as u8);
    assert(rec[1] == (c % 256) as u8);
    assert(rec[2] == (x / 0x1000000) as u8);
    assert(rec[3] == ((x / 0x10000) % 256) as u8);
    assert(rec[4] == ((x / 256) % 256) as u8);
    assert(rec[5] == (x % 256) as u8);
    lemma_be16_round_trip(c);
    lemma_be32_round_trip(x);
}

/// Appending bytes to a payload does not change how its existing records
/// decode.
proof fn lemma_decode_append(p: Seq<u8>, e: Seq<u8>, j: int)
    requires
        p.len() % 6 == 0,
        0 <= j <= p.len() as int / 6,
    ensures
        decode_prefix(p + e, j) == decode_prefix(p, j),
    decreases j,
{
    if j > 0 {
        lemma_decode_append(p, e, j - 1);
        assert((p + e).subrange(6 * (j - 1), 6 * (j - 1) + 6) =~= p.subrange(
            6 * (j - 1),
            6 * (j - 1) + 6,
        ));
    }
}

/// The view with the parameters in canonical places `k` and beyond cleared.
spec fn clear_from(v: SettingsView, k: int) -> SettingsView {
    SettingsView {
        header_table_size: if k >= 1 {
            v.header_table_size
        } else {
            None
        },
        enable_push: if k >= 2 {
            v.enable_push
        } else {
            None
        },
        max_concurrent_streams: if k >= 3 {
            v.max_concurrent_streams
        } else {
            None
        },
        initial_window_size: if k >= 4 {
            v.initial_window_size
        } else {
            None
        },
        max_frame_size: if k >= 5 {
            v.max_frame_size
        } else {
            None
        },
        max_header_list_size: if k >= 6 {
            v.max_header_list_size
        } else {
            None
        },
        enable_connect_protocol: if k >= 7 {
            v.enable_connect_protocol
        } else {
            None
        },
        no_rfc7540_priorities: if k >= 8 {
            v.no_rfc7540_priorities
        } else {
            None
        },
        ..v
    }
}

/// Every present parameter value lies in its wire domain.
pub open spec fn fields_valid(v: SettingsView) -> bool {
    &&& (v.enable_push matches Some(x) ==> x == 0 || x == 1)
    &&& (v.enable_connect_protocol matches Some(x) ==> x == 0 || x == 1)
    &&& (v.no_rfc7540_priorities matches Some(x) ==> x == 0 || x == 1)
    &&& (v.initial_window_size matches Some(x) ==> x <= MAX_INITIAL_WINDOW_SIZE)
    &&& (v.max_frame_size matches Some(x) ==> DEFAULT_MAX_FRAME_SIZE <= x <= MAX_MAX_FRAME_SIZE)
}

/// Encoding the first `k` canonical slots and decoding the result yields
/// the set restricted to those slots.
proof fn lemma_round_trip_prefix(v: SettingsView, k: int)
    requires
        !v.ack,
        v.order == default_codes(),
        v.experimental is None,
        fields_valid(v),
        0 <= k <= 8,
    ensures
        payload_prefix(v, k).len() % 6 == 0,
        decode_prefix(payload_prefix(v, k), payload_prefix(v, k).len() as int / 6) == Ok::<
            SettingsView,
            Error,
        >(clear_from(v, k)),
    decreases k,
{
    if k == 0 {
        assert(clear_from(v, 0) =~= empty_settings_view());
    } else {
        lemma_round_trip_prefix(v, k - 1);
        let p = payload_prefix(v, k - 1);
        let c = default_codes()[k - 1];
        let cur = payload_prefix(v, k);
        assert(is_standard_code(c));
        match field_of(v, c) {
            None => {
                assert(emit_at(v, c) =~= Seq::<u8>::empty());
                assert(cur =~= p);
                assert(clear_from(v, k) =~= clear_from(v, k - 1));
            },
            Some(x) => {
                let rec = record_bytes(c, x);
                lemma_record_extract(c, x);
                assert(cur == p + rec);
                assert(cur.len() == p.len() + 6);
                let m = p.len() as int / 6;
                assert(cur.len() as int / 6 == m + 1);
                lemma_decode_append(p, rec, m);
                assert(cur.subrange(6 * m, 6 * m + 6) =~= rec);
                assert(record_code_at(cur, m) == c);
                assert(record_value_at(cur, m) == x);
                assert(value_ok(c, x));
                assert(decode_prefix(cur, m + 1) == Ok::<SettingsView, Error>(
                    set_field(clear_from(v, k - 1), c, x),
                ));
                assert(set_field(clear_from(v, k - 1), c, x) =~= clear_from(v, k));
            },
        }
    }
}

/// Encode/decode value fidelity: a settings set with the canonical order,
/// the ACK bit clear and no experimental settings attached decodes from its
/// own encoded payload back to exactly itself, standard field by standard
/// field. Each present value must lie in its wire domain: the unchecked
/// setters admit values (say EnableConnectProtocol = 2) that any decoder is
/// bound to reject, and no fidelity can hold for those.
pub proof fn lemma_encode_decode_round_trip(v: SettingsView)
    requires
        !v.ack,
        v.order == default_codes(),
        v.experimental is None,
        fields_valid(v),
    ensures
        decode_payload(payload_bytes(v)) == Ok::<SettingsView, Error>(v),
{
    lemma_round_trip_prefix(v, 8);
    assert(payload_bytes(v) == payload_prefix(v, 8));
    assert(clear_from(v, 8) =~= v);
}

} // verus!
