//! Laws of the registry, stated and proved over the spec-level model that the
//! executable operations' contracts are written against.

use vstd::prelude::*;

use crate::client::ConfigModel;
use crate::client::ConnectionType;
use crate::client::DeliveryMode;
use crate::client::PipelineType;
use crate::registry::RegistryModel;

verus! {

/// A handle that was never issued is rejected everywhere: every operation on
/// it reports failure (or the empty error text) and leaves the registry
/// exactly as it was.
pub proof fn lemma_unknown_handle_rejected(
    m: RegistryModel,
    h: usize,
    o: Result<(), Seq<char>>,
    v: Seq<char>,
    t: PipelineType,
    d: DeliveryMode,
    b: bool,
    id: u64,
    p: i32,
)
    requires
        !m.valid_handle(h),
    ensures
        m.run_step(h, o) == m,
        !m.run_result(h, o),
        m.send_step(h, o) == m,
        !m.send_result(h, o),
        m.close_step(h) == m,
        m.last_error_view(h) == Seq::<char>::empty(),
        m.set_broker_uri_step(h, v) == m,
        m.set_username_step(h, v) == m,
        m.set_password_step(h, v) == m,
        m.set_destination_step(h, v) == m,
        m.set_pipeline_type_step(h, t) == m,
        m.set_delivery_mode_step(h, d) == m,
        m.set_transacted_step(h, b) == m,
        !m.set_result(h),
        m.set_callback_step(h, id) == m,
        !m.callback_legal(h),
        m.notify_step(h, v) == m,
        !m.notify_legal(h),
        m.connect_view(h) is None,
        m.produce_view(h, v, p) is None,
{
}

/// Instance creations yield distinct handles: a creation never returns a
/// handle that was already valid, and two creations in sequence return
/// different handles, both valid afterwards.
pub proof fn lemma_created_handles_distinct(m: RegistryModel, c1: i32, c2: i32)
    requires
        m.clients.len() + 1 < usize::MAX,
    ensures
        ({
            let h1 = m.fresh_handle();
            let m1 = m.new_instance_step(c1);
            let h2 = m1.fresh_handle();
            let m2 = m1.new_instance_step(c2);
            h1 != h2 && !m.valid_handle(h1 as usize) && m2.valid_handle(h1 as usize)
                && m2.valid_handle(h2 as usize)
        }),
{
}

/// `close` is idempotent: closing a second time changes nothing and still
/// reports success. After a close, the handle is rejected by every other
/// operation, while `get_last_error` still answers the text recorded before.
pub proof fn lemma_close_idempotent(m: RegistryModel, h: usize)
    requires
        m.valid_handle(h),
    ensures
        ({
            let m1 = m.close_step(h);
            m1.close_step(h) == m1 && m1.valid_handle(h) && !m1.configurable(h)
                && !m1.run_legal(h) && !m1.send_legal(h) && !m1.callback_legal(h)
                && !m1.notify_legal(h) && m1.last_error_view(h) == m.last_error_view(h)
        }),
{
    let m1 = m.close_step(h);
    assert(m1.close_step(h).clients =~= m1.clients);
    assert(m1.close_step(h) =~= m1);
}

/// Once a client runs, configuration setters are rejected and have no effect
/// on the active connection's settings.
pub proof fn lemma_setters_rejected_after_run(
    m: RegistryModel,
    h: usize,
    v: Seq<char>,
    t: PipelineType,
    d: DeliveryMode,
    b: bool,
)
    requires
        m.run_legal(h),
    ensures
        ({
            let m1 = m.run_step(h, Ok(()));
            !m1.set_result(h) && m1.set_broker_uri_step(h, v).client(h).config == m1.client(
                h,
            ).config && m1.set_username_step(h, v).client(h).config == m1.client(h).config
                && m1.set_password_step(h, v).client(h).config == m1.client(h).config
                && m1.set_destination_step(h, v).client(h).config == m1.client(h).config
                && m1.set_pipeline_type_step(h, t).client(h).config == m1.client(h).config
                && m1.set_delivery_mode_step(h, d).client(h).config == m1.client(h).config
                && m1.set_transacted_step(h, b).client(h).config == m1.client(h).config
        }),
{
}

/// A client created as a consumer can never send: whatever its lifecycle
/// state and whatever the outcome handed in, the send reports `false` and the
/// client's state and configuration are untouched.
pub proof fn lemma_consumer_never_sends(m: RegistryModel, h: usize, o: Result<(), Seq<char>>)
    requires
        m.valid_handle(h),
        m.client(h).connection_type == ConnectionType::Consumer,
    ensures
        !m.send_result(h, o),
        m.send_step(h, o).valid_handle(h),
        m.send_step(h, o).client(h).state == m.client(h).state,
        m.send_step(h, o).client(h).config == m.client(h).config,
{
}

/// Round trip: each setter stores exactly the value it was handed, the
/// connect configuration read back afterwards carries that value, and every
/// other setting is untouched.
pub proof fn lemma_config_round_trip(
    m: RegistryModel,
    h: usize,
    v: Seq<char>,
    t: PipelineType,
    d: DeliveryMode,
    b: bool,
)
    requires
        m.configurable(h),
        m.initialized,
    ensures
        m.set_broker_uri_step(h, v).connect_view(h) == Some(
            ConfigModel { broker_uri: v, ..m.client(h).config },
        ),
        m.set_username_step(h, v).connect_view(h) == Some(
            ConfigModel { username: v, ..m.client(h).config },
        ),
        m.set_password_step(h, v).connect_view(h) == Some(
            ConfigModel { password: v, ..m.client(h).config },
        ),
        m.set_destination_step(h, v).connect_view(h) == Some(
            ConfigModel { destination: v, ..m.client(h).config },
        ),
        m.set_pipeline_type_step(h, t).connect_view(h) == Some(
            ConfigModel { pipeline_type: t, ..m.client(h).config },
        ),
        m.set_delivery_mode_step(h, d).connect_view(h) == Some(
            ConfigModel { delivery_mode: d, ..m.client(h).config },
        ),
        m.set_transacted_step(h, b).connect_view(h) == Some(
            ConfigModel { transacted: b, ..m.client(h).config },
        ),
{
}

/// An inbound notification never disturbs what is already queued: earlier
/// notifications keep their positions, so per-client arrival order is
/// preserved, and at most one entry is appended.
pub proof fn lemma_notify_preserves_order(m: RegistryModel, h: usize, body: Seq<char>)
    ensures
        m.pending.len() <= m.notify_step(h, body).pending.len() <= m.pending.len() + 1,
        forall|i: int|
            0 <= i < m.pending.len() ==> m.notify_step(h, body).pending[i] == m.pending[i],
{
}

/// The registry invariant — while the messaging library is not initialized,
/// no client is running — holds of the empty registry and is preserved by
/// every operation.
pub proof fn lemma_wf_preserved(
    m: RegistryModel,
    h: usize,
    code: i32,
    o: Result<(), Seq<char>>,
    v: Seq<char>,
    t: PipelineType,
    d: DeliveryMode,
    b: bool,
    id: u64,
)
    requires
        m.wf(),
    ensures
        RegistryModel::empty().wf(),
        m.init_step().wf(),
        m.fini_step().wf(),
        m.new_instance_step(code).wf(),
        m.run_step(h, o).wf(),
        m.send_step(h, o).wf(),
        m.close_step(h).wf(),
        m.set_broker_uri_step(h, v).wf(),
        m.set_username_step(h, v).wf(),
        m.set_password_step(h, v).wf(),
        m.set_destination_step(h, v).wf(),
        m.set_pipeline_type_step(h, t).wf(),
        m.set_delivery_mode_step(h, d).wf(),
        m.set_transacted_step(h, b).wf(),
        m.set_callback_step(h, id).wf(),
        m.notify_step(h, v).wf(),
{
}

} // verus!
