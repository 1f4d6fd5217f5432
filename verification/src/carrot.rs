//! The client: the address of a server and the one connection to it.

use vstd::prelude::*;
use crate::error::CarrotError;
use crate::exchange::{Exchange, ExchangeView};
use crate::reconnect::{Reconnect, ReconnectView, ATTEMPTS};
use crate::request::{Request, RequestView};
use crate::value::{Value, ValueView};

verus! {

/// A client of one server. `C` is the type of an open connection.
#[derive(Debug)]
pub struct Carrot<C> {
    server_url: String,
    connection: C,
}

/// A [`Carrot`] as a mathematical value.
pub struct CarrotView<C> {
    pub server_url: Seq<char>,
    pub connection: C,
}

impl<C> CarrotView<C> {
    /// The client after one connection attempt of `run` has come back with
    /// `outcome`: a connection that was opened takes the place of the one
    /// held, and nothing else changes.
    pub open spec fn adopt(self, run: ReconnectView, outcome: Option<C>) -> CarrotView<C> {
        match outcome {
            Some(connection) if run.pending() => CarrotView {
                server_url: self.server_url,
                connection,
            },
            _ => self,
        }
    }
}

impl<C> View for Carrot<C> {
    type V = CarrotView<C>;

    closed spec fn view(&self) -> CarrotView<C> {
        CarrotView { server_url: self.server_url@, connection: self.connection }
    }
}

impl<C> Carrot<C> {
    /// Makes a client for the server at `url` from the outcome of the one
    /// attempt to connect to it.
    pub fn new(url: &str, connection: Option<C>) -> (made: Result<Carrot<C>, CarrotError>)
        ensures
            match connection {
                Some(opened) => made is Ok && made->Ok_0@ == (CarrotView {
                    server_url: url@,
                    connection: opened,
                }),
                None => made == Err::<Carrot<C>, CarrotError>(CarrotError::Connection),
            },
    {
        match connection {
            Some(opened) => Ok(Carrot { server_url: url.to_owned(), connection: opened }),
            None => Err(CarrotError::Connection),
        }
    }

    /// The address of the server.
    pub fn server_url(&self) -> (url: &str)
        ensures
            url@ == self@.server_url,
    {
        self.server_url.as_str()
    }

    /// The connection held.
    pub fn connection(&self) -> (connection: &C)
        ensures
            *connection == self@.connection,
    {
        &self.connection
    }

    /// The connection held, for use.
    pub fn connection_mut(&mut self) -> (connection: &mut C)
        ensures
            *connection == old(self)@.connection,
            final(self)@ == (CarrotView {
                server_url: old(self)@.server_url,
                connection: *final(connection),
            }),
    {
        &mut self.connection
    }

    /// Begins a read of what is stored under `key`.
    pub fn read<R>(&self, key: u32) -> (exchange: Exchange<R>)
        ensures
            exchange@ == ExchangeView::<R>::Encoding(RequestView::Read { key }),
    {
        Exchange::begin(Request::Read { key })
    }

    /// Takes the outcome of one connection attempt of `run`: a connection that
    /// was opened replaces the one held. Returns the run with the attempt
    /// counted.
    pub fn reconnect(&mut self, run: Reconnect, outcome: Option<C>) -> (next: Reconnect)
        ensures
            final(self)@ == old(self)@.adopt(run@, outcome),
            next@ == run@.record(),
    {
        if run.is_pending() {
            match outcome {
                Some(connection) => {
                    self.connection = connection;
                },
                None => {},
            }
        }
        run.record()
    }
}

/// Writing data of the kind `T`.
pub trait Write<T> {
    /// The data as a request carries it.
    spec fn carried(data: T) -> ValueView;

    /// Begins a write of `data` under `key`, issued at the time `iat`.
    fn write<R>(&self, key: u32, data: T, iat: u64) -> (exchange: Exchange<R>)
        ensures
            exchange@ == ExchangeView::<R>::Encoding(
                RequestView::Write { key, data: Self::carried(data), iat },
            ),
    ;
}

impl<C> Write<Value> for Carrot<C> {
    open spec fn carried(data: Value) -> ValueView {
        data@
    }

    fn write<R>(&self, key: u32, data: Value, iat: u64) -> (exchange: Exchange<R>) {
        Exchange::begin(Request::Write { key, data, iat })
    }
}

impl<C> Write<u64> for Carrot<C> {
    open spec fn carried(data: u64) -> ValueView {
        ValueView::Unsigned(data)
    }

    fn write<R>(&self, key: u32, data: u64, iat: u64) -> (exchange: Exchange<R>) {
        Exchange::begin(Request::Write { key, data: Value::Unsigned(data), iat })
    }
}

impl<C> Write<i64> for Carrot<C> {
    open spec fn carried(data: i64) -> ValueView {
        ValueView::Signed(data)
    }

    fn write<R>(&self, key: u32, data: i64, iat: u64) -> (exchange: Exchange<R>) {
        Exchange::begin(Request::Write { key, data: Value::Signed(data), iat })
    }
}

impl<C> Write<String> for Carrot<C> {
    open spec fn carried(data: String) -> ValueView {
        ValueView::Text(data@)
    }

    fn write<R>(&self, key: u32, data: String, iat: u64) -> (exchange: Exchange<R>) {
        Exchange::begin(Request::Write { key, data: Value::Text(data), iat })
    }
}

impl<C> Write<Vec<u8>> for Carrot<C> {
    open spec fn carried(data: Vec<u8>) -> ValueView {
        ValueView::Bytes(data@)
    }

    fn write<R>(&self, key: u32, data: Vec<u8>, iat: u64) -> (exchange: Exchange<R>) {
        Exchange::begin(Request::Write { key, data: Value::Bytes(data), iat })
    }
}

/// The client and the run after the outcomes of successive connection
/// attempts, the earliest first.
pub open spec fn replay<C>(
    client: CarrotView<C>,
    run: ReconnectView,
    outcomes: Seq<Option<C>>,
) -> (CarrotView<C>, ReconnectView)
    decreases outcomes.len(),
{
    if outcomes.len() == 0 {
        (client, run)
    } else {
        let (held, made) = replay(client, run, outcomes.drop_last());
        (held.adopt(made, outcomes.last()), made.record())
    }
}

/// A run ends with its tenth attempt and then reports success, whatever the
/// attempts came to, even if none opened a connection.
pub proof fn lemma_run_reports_success<C>(client: CarrotView<C>, outcomes: Seq<Option<C>>)
    requires
        outcomes.len() <= ATTEMPTS,
    ensures
        replay(client, ReconnectView::fresh(), outcomes).1.attempted == outcomes.len(),
        replay(client, ReconnectView::fresh(), outcomes).1.result() == if outcomes.len()
            == ATTEMPTS {
            Some(Ok::<(), CarrotError>(()))
        } else {
            None
        },
    decreases outcomes.len(),
{
    if outcomes.len() > 0 {
        lemma_run_reports_success(client, outcomes.drop_last());
    }
}

/// A run does not stop at the first connection that it opens: each one that is
/// opened replaces the one held, so the client ends with the last. If none is
/// opened, the client keeps the connection that it had. The address never
/// changes.
pub proof fn lemma_run_keeps_last_connection<C>(client: CarrotView<C>, outcomes: Seq<Option<C>>)
    requires
        outcomes.len() <= ATTEMPTS,
    ensures
        replay(client, ReconnectView::fresh(), outcomes).0.server_url == client.server_url,
        (forall|i: int| 0 <= i < outcomes.len() ==> outcomes[i] is None) ==> replay(
            client,
            ReconnectView::fresh(),
            outcomes,
        ).0.connection == client.connection,
        forall|i: int|
            0 <= i < outcomes.len() && outcomes[i] is Some && (forall|j: int|
                i < j < outcomes.len() ==> outcomes[j] is None) ==> replay(
                client,
                ReconnectView::fresh(),
                outcomes,
            ).0.connection == outcomes[i]->Some_0,
    decreases outcomes.len(),
{
    if outcomes.len() > 0 {
        let earlier = outcomes.drop_last();
        lemma_run_keeps_last_connection(client, earlier);
        lemma_run_reports_success(client, earlier);
        let after = replay(client, ReconnectView::fresh(), outcomes).0;
        assert forall|i: int|
            0 <= i < outcomes.len() && outcomes[i] is Some && (forall|j: int|
                i < j < outcomes.len() ==> outcomes[j] is None) implies after.connection
            == outcomes[i]->Some_0 by {
            if i < outcomes.len() - 1 {
                assert(outcomes.last() is None);
                assert(earlier[i] == outcomes[i]);
                assert forall|j: int| i < j < earlier.len() implies earlier[j] is None by {
                    assert(earlier[j] == outcomes[j]);
                }
            }
        }
        if forall|i: int| 0 <= i < outcomes.len() ==> outcomes[i] is None {
            assert(outcomes.last() is None);
            assert forall|i: int| 0 <= i < earlier.len() implies earlier[i] is None by {
                assert(earlier[i] == outcomes[i]);
            }
        }
    }
}

} // verus!
