//! The session: the field model, the connection manager and the session
//! clock under one owner, with the verbs the presentation layer drives —
//! connect, disconnect, update (compile and push) and preset loading. Each
//! transport call happens outside; the session decides what the transport
//! must do and records how it went.

use vstd::prelude::*;

use crate::connection::{ConnectionManager, PresenceError, TransportOp};
use crate::fields::{fields_from_settings, CalendarDate, FieldModel, SettingsRecord};
use crate::payload::{compile, compiles_to, Payload};
use crate::preset::{merge, merged, PresetRecord};
use crate::timestamp::{resolve_timestamp, resolved_start, start_value, SessionClock};

verus! {

pub struct Session {
    pub fields: FieldModel,
    pub conn: ConnectionManager,
    pub clock: SessionClock,
}

impl Session {
    /// Opens a session at instant `now`: fields seeded from the persisted
    /// settings (or all defaults when none were readable), disconnected,
    /// both clock marks at `now`.
    pub fn start(settings: Option<SettingsRecord>, today: CalendarDate, now: i64) -> (r: Session)
        requires
            today.wf(),
        ensures
            !r.conn.spec_connected(),
            r.clock.session_started_at == now,
            r.clock.last_update_at == now,
            settings matches Some(s) ==> crate::fields::loaded_from(r.fields, s, today),
            settings is None ==> r.fields.is_default(today),
    {
        Session {
            fields: fields_from_settings(settings, today),
            conn: ConnectionManager::new(),
            clock: SessionClock::start(now),
        }
    }

    /// The one flag the presentation layer reads back.
    pub fn connected(&self) -> (r: bool)
        ensures
            r == self.conn.spec_connected(),
    {
        self.conn.is_connected()
    }

    /// The first half of `connect`: rejects an empty identity before the
    /// transport is touched.
    pub fn connect_begin(&self) -> (r: Result<(), PresenceError>)
        requires
            !self.conn.spec_connected(),
        ensures
            r == if self.fields.identity@.len() == 0 {
                Err::<(), PresenceError>(PresenceError::ConnectionError)
            } else {
                Ok::<(), PresenceError>(())
            },
    {
        self.conn.connect_begin(&self.fields.identity)
    }

    /// The second half of `connect`: records the handshake outcome, binding
    /// the handle to the current identity on success.
    pub fn connect_finish(&mut self, handshake_ok: bool) -> (r: Result<(), PresenceError>)
        requires
            !old(self).conn.spec_connected(),
            old(self).fields.identity@.len() > 0,
        ensures
            final(self).fields == old(self).fields,
            final(self).clock == old(self).clock,
            handshake_ok ==> r == Ok::<(), PresenceError>(()) && final(self).conn.spec_connected()
                && final(self).conn.spec_identity() == old(self).fields.identity@,
            !handshake_ok ==> r == Err::<(), PresenceError>(PresenceError::ConnectionError)
                && !final(self).conn.spec_connected(),
    {
        let identity: String = self.fields.identity.clone();
        self.conn.connect_finish(identity, handshake_ok)
    }

    /// Tears the connection down; fails open, so the session is disconnected
    /// afterwards even when the transport close failed.
    pub fn disconnect(&mut self, close_ok: bool) -> (r: Result<(), PresenceError>)
        requires
            old(self).conn.spec_connected(),
        ensures
            final(self).fields == old(self).fields,
            final(self).clock == old(self).clock,
            !final(self).conn.spec_connected(),
            r == if close_ok {
                Ok::<(), PresenceError>(())
            } else {
                Err::<(), PresenceError>(PresenceError::DisconnectionError)
            },
    {
        self.conn.disconnect(close_ok)
    }

    /// The reconnect decision before a push: one close and one reopen exactly
    /// when connected under a different identity than the form now holds.
    pub fn ensure_identity_plan(&self) -> (r: Vec<TransportOp>)
        ensures
            self.conn.spec_connected() && self.conn.spec_identity() != self.fields.identity@
                ==> r@ == seq![TransportOp::Close, TransportOp::Open],
            !(self.conn.spec_connected() && self.conn.spec_identity() != self.fields.identity@)
                ==> r@ == Seq::<TransportOp>::empty(),
    {
        self.conn.ensure_identity_plan(&self.fields.identity)
    }

    /// Compiles the current form state and clock readings into the payload
    /// the transport is to push: the timestamp mode resolved against the
    /// session clock, every omission rule applied.
    pub fn build_payload(&self, now_utc: i64, day_offset: u32) -> (r: Payload)
        requires
            self.fields.timestamp_mode is CustomDate ==> self.fields.custom_date.wf(),
            self.fields.timestamp_mode is LocalDayStart ==> now_utc >= i64::MIN + 86400,
            day_offset < 86400,
        ensures
            compiles_to(
                self.fields,
                r.start,
                r,
            ),
            start_value(r.start) == resolved_start(
                self.fields.timestamp_mode,
                self.fields.custom_date,
                self.clock,
                now_utc as int,
                day_offset as int,
            ),
    {
        let start: Option<i64> = resolve_timestamp(
            self.fields.timestamp_mode,
            &self.fields.custom_date,
            &self.clock,
            now_utc,
            day_offset,
        );
        compile(&self.fields, start)
    }

    /// Records how the push went: success stamps the clock's last-update
    /// mark with the push instant, failure leaves everything as it was.
    pub fn send_finish(&mut self, now: i64, write_ok: bool) -> (r: Result<(), PresenceError>)
        requires
            old(self).conn.spec_connected(),
        ensures
            final(self).fields == old(self).fields,
            final(self).conn == old(self).conn,
            final(self).conn.spec_connected(),
            write_ok ==> r == Ok::<(), PresenceError>(()) && final(self).clock.last_update_at == now
                && final(self).clock.session_started_at == old(self).clock.session_started_at,
            !write_ok ==> r == Err::<(), PresenceError>(PresenceError::SendError)
                && final(self).clock == old(self).clock,
    {
        self.conn.send_finish(&mut self.clock, now, write_ok)
    }

    /// Applies a loaded preset onto the live form, one-shot: the record is
    /// consumed here and cannot be replayed.
    pub fn load_preset(&mut self, preset: PresetRecord)
        ensures
            final(self).fields == merged(old(self).fields, preset),
            final(self).conn == old(self).conn,
            final(self).clock == old(self).clock,
    {
        merge(&mut self.fields, preset);
    }
}

} // verus!
