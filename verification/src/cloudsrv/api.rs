//! The choice between the two surfaces that share the scheduler's socket.

use vstd::prelude::*;

verus! {

/// The two services behind the scheduler's listening socket.
#[derive(Clone, Copy, Debug, PartialEq, Eq, Structural)]
pub enum Surface {
    /// The HTTP interface for monitoring and autoscaling callers.
    Http,
    /// The structured RPC interface for executors and clients.
    Rpc,
}

/// The media type `application/json`, in lower case, as bytes.
pub open spec fn json_media_type() -> Seq<u8> {
    seq![
        97u8, 112u8, 112u8, 108u8, 105u8, 99u8, 97u8, 116u8, 105u8, 111u8, 110u8, 47u8, 106u8,
        115u8, 111u8, 110u8,
    ]
}

/// Whether a byte is a blank: a space or a tab.
pub open spec fn is_blank(byte: u8) -> bool {
    byte == 32 || byte == 9
}

/// A byte with an upper-case letter turned into its lower-case letter.
pub open spec fn lower(byte: u8) -> u8 {
    if 65 <= byte <= 90 {
        (byte + 32) as u8
    } else {
        byte
    }
}

/// Whether the bytes from `from` up to `to` are the media type of one entry of an accept
/// value: they begin at the start of the value or behind a comma, they hold neither a
/// comma nor a semicolon, and they end where the value ends, the next entry begins, or the
/// parameters of the entry begin.
pub open spec fn is_media_range(value: Seq<u8>, from: int, to: int) -> bool {
    &&& 0 <= from <= to <= value.len()
    &&& (from == 0 || value[from - 1] == 44)
    &&& (to == value.len() || value[to] == 44 || value[to] == 59)
    &&& forall|i: int| from <= i < to ==> value[i] != 44 && value[i] != 59
}

/// Whether the bytes from `from` up to `to` are `application/json` from `at` on, in
/// letters of either case, with nothing but blanks around it.
pub open spec fn json_at(value: Seq<u8>, from: int, to: int, at: int) -> bool {
    &&& from <= at && at + 16 <= to
    &&& forall|i: int| from <= i < at ==> is_blank(value[i])
    &&& forall|i: int| 0 <= i < 16 ==> lower(#[trigger] value[at + i]) == json_media_type()[i]
    &&& forall|i: int| at + 16 <= i < to ==> is_blank(value[i])
}

/// Whether the bytes from `from` up to `to` name the media type `application/json`.
pub open spec fn names_json(value: Seq<u8>, from: int, to: int) -> bool {
    exists|at: int| json_at(value, from, to, at)
}

/// Whether the bytes from `from` up to `to` are the media type of an entry and name
/// `application/json`.
pub open spec fn is_json_range(value: Seq<u8>, from: int, to: int) -> bool {
    is_media_range(value, from, to) && names_json(value, from, to)
}

/// Whether an accept value is JSON-oriented: one of its entries, which commas separate,
/// has the media type `application/json`. The media type of an entry is what stands before
/// its parameters, which begin at the first semicolon; blanks around it and the case of
/// its letters do not count.
pub open spec fn is_json_oriented(value: Seq<u8>) -> bool {
    exists|from: int, to: int| is_json_range(value, from, to)
}

/// The surface that serves a request with the given accept header: the HTTP surface where
/// the header is there and its value is JSON-oriented, and the RPC surface for every other
/// request.
pub open spec fn surface_for(accept: Option<Seq<u8>>) -> Surface {
    match accept {
        Some(value) => if is_json_oriented(value) {
            Surface::Http
        } else {
            Surface::Rpc
        },
        None => Surface::Rpc,
    }
}

/// The media type begins at the first byte of its range that is no blank.
proof fn json_begins_at_first_mark(value: Seq<u8>, from: int, to: int, first: int, at: int)
    requires
        from <= first <= to <= value.len(),
        forall|i: int| from <= i < first ==> is_blank(value[i]),
        first < to ==> !is_blank(value[first]),
        json_at(value, from, to, at),
    ensures
        at == first,
{
    assert(lower(value[at + 0]) == json_media_type()[0]);
    assert(!is_blank(value[at]));
}

/// A media type that begins at `from` ends at the first comma or semicolon behind it.
proof fn media_range_has_one_end(value: Seq<u8>, from: int, to: int, other: int)
    requires
        is_media_range(value, from, to),
        is_media_range(value, from, other),
    ensures
        to == other,
{
}

fn to_lower(byte: u8) -> (r: u8)
    ensures
        r == lower(byte),
{
    if 65 <= byte && byte <= 90 {
        byte + 32
    } else {
        byte
    }
}

fn blank(byte: u8) -> (r: bool)
    ensures
        r == is_blank(byte),
{
    byte == 32 || byte == 9
}

fn range_names_json(value: &[u8], from: usize, to: usize) -> (r: bool)
    requires
        from <= to <= value@.len(),
    ensures
        r == names_json(value@, from as int, to as int),
{
    let mut first: usize = from;
    while first < to && blank(value[first])
        invariant
            from <= first <= to <= value@.len(),
            forall|i: int| from <= i < first ==> is_blank(value@[i]),
        decreases to - first,
    {
        first += 1;
    }
    if to - first < 16 {
        assert forall|at: int| !json_at(value@, from as int, to as int, at) by {
            if json_at(value@, from as int, to as int, at) {
                json_begins_at_first_mark(value@, from as int, to as int, first as int, at);
            }
        }
        return false;
    }
    let json: [u8; 16] = [97, 112, 112, 108, 105, 99, 97, 116, 105, 111, 110, 47, 106, 115, 111, 110];
    assert(json@ =~= json_media_type());
    assert(!is_blank(value@[first as int]));
    let mut k: usize = 0;
    while k < 16
        invariant
            from <= first,
            first + 16 <= to <= value@.len(),
            k <= 16,
            json@ == json_media_type(),
            forall|i: int| from <= i < first ==> is_blank(value@[i]),
            !is_blank(value@[first as int]),
            forall|i: int| 0 <= i < k ==> lower(#[trigger] value@[first + i]) == json_media_type()[i],
        decreases 16 - k,
    {
        if to_lower(value[first + k]) != json[k] {
            assert forall|at: int| !json_at(value@, from as int, to as int, at) by {
                if json_at(value@, from as int, to as int, at) {
                    json_begins_at_first_mark(value@, from as int, to as int, first as int, at);
                    assert(lower(value@[at + k]) == json_media_type()[k as int]);
                }
            }
            return false;
        }
        k += 1;
    }
    let mut j: usize = first + 16;
    while j < to
        invariant
            from <= first,
            first + 16 <= j <= to <= value@.len(),
            forall|i: int| from <= i < first ==> is_blank(value@[i]),
            forall|i: int| 0 <= i < 16 ==> lower(#[trigger] value@[first + i]) == json_media_type()[i],
            !is_blank(value@[first as int]),
            forall|i: int| first + 16 <= i < j ==> is_blank(value@[i]),
        decreases to - j,
    {
        if !blank(value[j]) {
            assert forall|at: int| !json_at(value@, from as int, to as int, at) by {
                if json_at(value@, from as int, to as int, at) {
                    json_begins_at_first_mark(value@, from as int, to as int, first as int, at);
                }
            }
            return false;
        }
        j += 1;
    }
    assert(json_at(value@, from as int, to as int, first as int));
    true
}

/// Says whether an accept value is JSON-oriented.
pub fn json_oriented(value: &[u8]) -> (r: bool)
    ensures
        r == is_json_oriented(value@),
{
    let mut from: usize = 0;
    loop
        invariant
            from <= value@.len(),
            from == 0 || value@[from - 1] == 44,
            forall|f: int, t: int| 0 <= f < from ==> !is_json_range(value@, f, t),
        decreases value@.len() - from,
    {
        let mut to: usize = from;
        while to < value.len() && value[to] != 44 && value[to] != 59
            invariant
                from <= to <= value@.len(),
                forall|i: int| from <= i < to ==> value@[i] != 44 && value@[i] != 59,
            decreases value@.len() - to,
        {
            to += 1;
        }
        assert(is_media_range(value@, from as int, to as int));
        if range_names_json(value, from, to) {
            assert(is_json_range(value@, from as int, to as int));
            return true;
        }
        assert forall|t: int| !is_json_range(value@, from as int, t) by {
            if is_json_range(value@, from as int, t) {
                media_range_has_one_end(value@, from as int, to as int, t);
            }
        }
        let mut next: usize = to;
        while next < value.len() && value[next] != 44
            invariant
                from <= to <= next <= value@.len(),
                forall|i: int| from <= i < next ==> value@[i] != 44,
            decreases value@.len() - next,
        {
            next += 1;
        }
        if next >= value.len() {
            assert forall|f: int, t: int| !is_json_range(value@, f, t) by {
                if is_json_range(value@, f, t) && f > from {
                    assert(value@[f - 1] == 44);
                }
            }
            return false;
        }
        assert forall|f: int, t: int| 0 <= f < next + 1 implies !is_json_range(value@, f, t) by {
            if is_json_range(value@, f, t) && f > from {
                assert(value@[f - 1] == 44);
            }
        }
        from = next + 1;
    }
}

/// Decides which surface serves a request, from the value of its accept header (`None`
/// where the request carries none). The decision reads the one request it is made for and
/// nothing else, so two requests on one connection are routed independently.
pub fn route(accept: Option<&[u8]>) -> (surface: Surface)
    ensures
        surface == surface_for(
            match accept {
                Some(value) => Some(value@),
                None => None,
            },
        ),
{
    match accept {
        Some(value) => {
            if json_oriented(value) {
                Surface::Http
            } else {
                Surface::Rpc
            }
        },
        None => Surface::Rpc,
    }
}

/// The surfaces that serve the requests of one connection, request by request.
pub open spec fn surfaces_for(accepts: Seq<Option<Seq<u8>>>) -> Seq<Surface> {
    Seq::new(accepts.len(), |i: int| surface_for(accepts[i]))
}

/// On a connection that is used again, each request reaches the surface that its own
/// header selects, whatever came before it on that connection.
pub proof fn routing_is_per_request(
    earlier: Seq<Option<Seq<u8>>>,
    other: Seq<Option<Seq<u8>>>,
    accept: Option<Seq<u8>>,
)
    ensures
        surfaces_for(earlier.push(accept)).last() == surface_for(accept),
        surfaces_for(earlier.push(accept)).last() == surfaces_for(other.push(accept)).last(),
{
}

/// The bare value `application/json` is JSON-oriented, and so is the value with
/// parameters behind it.
pub proof fn json_with_parameters_is_json_oriented(parameters: Seq<u8>)
    ensures
        is_json_oriented(json_media_type()),
        is_json_oriented(json_media_type() + seq![59u8] + parameters),
{
    let bare = json_media_type();
    assert(json_at(bare, 0, 16, 0));
    assert(is_json_range(bare, 0, 16));
    let value = json_media_type() + seq![59u8] + parameters;
    assert forall|i: int| 0 <= i < 16 implies value[i] == json_media_type()[i] by {}
    assert(json_at(value, 0, 16, 0)) by {
        assert forall|i: int| 0 <= i < 16 implies lower(#[trigger] value[0 + i])
            == json_media_type()[i] by {
            assert(value[i] == json_media_type()[i]);
        }
    }
    assert(value[16] == 59);
    assert(is_media_range(value, 0, 16));
    assert(is_json_range(value, 0, 16));
}

} // verus!
