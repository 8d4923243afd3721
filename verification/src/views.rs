use vstd::prelude::*;
use crate::actions::{role_mention, append_role_mention};
use crate::text::{
    decimal, signed_decimal, u64_text, i64_text, all_digits, digits_value, lemma_decimal_roundtrip,
};

verus! {

/// The lines joined with `sep` between each two of them.
pub open spec fn join(lines: Seq<Seq<char>>, sep: Seq<char>) -> Seq<char>
    decreases lines.len(),
{
    if lines.len() == 0 {
        Seq::empty()
    } else if lines.len() == 1 {
        lines[0]
    } else {
        join(lines.drop_last(), sep) + sep + lines.last()
    }
}

/// What a channel's permission overwrite says of one role or member.
pub struct Overwrite {
    /// The role the overwrite is about; `None` for a member's overwrite.
    pub role: Option<u64>,
    /// Whether the overwrite allows seeing the channel.
    pub can_view: bool,
    /// Whether the overwrite allows sending messages in the channel.
    pub can_send: bool,
}

pub open spec fn can_word(allowed: bool) -> Seq<char> {
    if allowed {
        "can"@
    } else {
        "can't"@
    }
}

/// The line that describes an overwrite: a sentence on viewing and one on
/// sending for a role, nothing for a member.
pub open spec fn overwrite_line(o: Overwrite) -> Seq<char> {
    match o.role {
        Some(r) => "Role "@ + role_mention(r) + " "@ + can_word(o.can_view) + " view the channel. Role "@
            + role_mention(r) + " "@ + can_word(o.can_send) + " send messages in the channel."@,
        None => Seq::empty(),
    }
}

/// The text that lists a channel's overwrites: their lines, one per line, or
/// `nothing` when that text is empty.
pub open spec fn permissions_listing(overwrites: Seq<Overwrite>, nothing: Seq<char>) -> Seq<char> {
    let text = join(overwrites.map_values(|o: Overwrite| overwrite_line(o)), "\n"@);
    if text.len() == 0 {
        nothing
    } else {
        text
    }
}

/// A role overwrite's line says "can send" exactly when the overwrite allows
/// sending and "can view" exactly when it allows viewing, each sentence
/// whatever the other flag is; a member's overwrite has an empty line.
pub proof fn law_overwrite_line_sentences(r: u64, view: bool, send: bool)
    ensures
        (" can send messages in the channel."@).is_suffix_of(
            overwrite_line(Overwrite { role: Some(r), can_view: view, can_send: send }),
        ) == send,
        (" can't send messages in the channel."@).is_suffix_of(
            overwrite_line(Overwrite { role: Some(r), can_view: view, can_send: send }),
        ) == !send,
        ("Role "@ + role_mention(r) + " can view the channel."@).is_prefix_of(
            overwrite_line(Overwrite { role: Some(r), can_view: view, can_send: send }),
        ) == view,
        ("Role "@ + role_mention(r) + " can't view the channel."@).is_prefix_of(
            overwrite_line(Overwrite { role: Some(r), can_view: view, can_send: send }),
        ) == !view,
        overwrite_line(Overwrite { role: None, can_view: view, can_send: send }).len() == 0,
{
    reveal_strlit("Role ");
    reveal_strlit(" ");
    reveal_strlit("can");
    reveal_strlit("can't");
    reveal_strlit(" view the channel. Role ");
    reveal_strlit(" send messages in the channel.");
    reveal_strlit(" can send messages in the channel.");
    reveal_strlit(" can't send messages in the channel.");
    reveal_strlit(" can view the channel.");
    reveal_strlit(" can't view the channel.");
    reveal_strlit(" Role ");
    reveal_strlit(">");
    let line = overwrite_line(Overwrite { role: Some(r), can_view: view, can_send: send });
    let head = "Role "@ + role_mention(r);
    let view_part = " "@ + can_word(view) + " view the channel. Role "@;
    let send_part = " "@ + can_word(send) + " send messages in the channel."@;
    let middle = role_mention(r);
    assert(line =~= head + view_part + middle + send_part);
    let can_send = " can send messages in the channel."@;
    let cant_send = " can't send messages in the channel."@;
    let front = head + view_part + middle;
    if send {
        assert(send_part =~= can_send);
        assert(line.subrange(line.len() - can_send.len(), line.len() as int) =~= can_send);
        assert(line =~= front + can_send);
        assert(middle[middle.len() - 1] == '>');
        assert(front[front.len() - 1] == middle[middle.len() - 1]);
        assert(line[line.len() - cant_send.len() + 1] == front[front.len() - 1]);
        assert(cant_send[1] == 'c');
        assert(!cant_send.is_suffix_of(line)) by {
            if cant_send.is_suffix_of(line) {
                assert(line.subrange(line.len() - cant_send.len(), line.len() as int)[1]
                    == line[line.len() - cant_send.len() + 1]);
            }
        }
    } else {
        assert(send_part =~= cant_send);
        assert(line.subrange(line.len() - cant_send.len(), line.len() as int) =~= cant_send);
        assert(line[line.len() - can_send.len()] == 'a');
        assert(!can_send.is_suffix_of(line)) by {
            assert(line.subrange(line.len() - can_send.len(), line.len() as int)[0] == 'a');
        }
    }
    let can_view = head + " can view the channel."@;
    let cant_view = head + " can't view the channel."@;
    let rest = " Role "@ + middle + send_part;
    let k: int = head.len() as int + 4;
    if view {
        assert(line =~= can_view + rest);
        assert(line.subrange(0, can_view.len() as int) =~= can_view);
        assert(cant_view[k] == '\'');
        assert(line[k] == ' ');
        assert(!cant_view.is_prefix_of(line)) by {
            if cant_view.is_prefix_of(line) {
                assert(line.subrange(0, cant_view.len() as int)[k] == line[k]);
            }
        }
    } else {
        assert(line =~= cant_view + rest);
        assert(line.subrange(0, cant_view.len() as int) =~= cant_view);
        assert(can_view[k] == ' ');
        assert(line[k] == '\'');
        assert(!can_view.is_prefix_of(line)) by {
            if can_view.is_prefix_of(line) {
                assert(line.subrange(0, can_view.len() as int)[k] == line[k]);
            }
        }
    }
}

/// A role's line ends with its whole permission value in parentheses:
/// reading back the digits between the last `(` and the final `)` gives the
/// role's permission bits. It starts with the role's name and its id.
pub proof fn law_role_line_shows_role(r: RoleInfo, labels: RoleLabels)
    ensures
        exists|d: Seq<char>|
            ("("@ + d + ")"@).is_suffix_of(role_line(r, labels)) && d.len() > 0 && all_digits(d)
                && digits_value(d) == r.permissions,
        (r.name@ + " : "@).is_prefix_of(role_line(r, labels)),
        exists|d: Seq<char>|
            (r.name@ + " : "@ + d + " : "@).is_prefix_of(role_line(r, labels)) && d.len() > 0
                && all_digits(d) && digits_value(d) == r.id,
{
    let line = role_line(r, labels);
    let p = decimal(r.permissions as nat);
    let i = decimal(r.id as nat);
    lemma_decimal_roundtrip(r.permissions as nat);
    lemma_decimal_roundtrip(r.id as nat);
    let front = r.name@ + " : "@ + i + " : "@ + (if r.hoist {
        labels.hoisted@
    } else {
        labels.not_hoisted@
    }) + " : "@ + labels.position@ + "("@ + signed_decimal(r.position as int) + ")"@ + " : "@
        + labels.permissions@;
    let tail = "("@ + p + ")"@;
    assert(line =~= front + tail);
    assert(line.subrange(line.len() - tail.len(), line.len() as int) =~= tail);
    let head = r.name@ + " : "@ + i + " : "@;
    assert(line.subrange(0, head.len() as int) =~= head);
    assert(line.subrange(0, (r.name@ + " : "@).len() as int) =~= r.name@ + " : "@);
}

/// A channel without overwrites is answered with `nothing`; one with a
/// single role overwrite is answered with that overwrite's line.
pub proof fn law_listing_of_few_overwrites(o: Overwrite, nothing: Seq<char>)
    ensures
        permissions_listing(Seq::empty(), nothing) == nothing,
        o.role is Some ==> permissions_listing(seq![o], nothing) == overwrite_line(o),
{
    let none: Seq<Overwrite> = Seq::empty();
    assert(none.map_values(|x: Overwrite| overwrite_line(x)) =~= Seq::<Seq<char>>::empty());
    assert(seq![o].map_values(|x: Overwrite| overwrite_line(x)) =~= seq![overwrite_line(o)]);
    if o.role is Some {
        reveal_strlit("Role ");
        assert(overwrite_line(o).len() > 0);
    }
}

/// The listing of a single role is that role's line; of none, empty.
pub proof fn law_listing_of_few_roles(r: RoleInfo, labels: RoleLabels)
    ensures
        roles_listing(Seq::empty(), labels).len() == 0,
        roles_listing(seq![r], labels) == role_line(r, labels),
{
    let none: Seq<RoleInfo> = Seq::empty();
    assert(none.map_values(|x: RoleInfo| role_line(x, labels)) =~= Seq::<Seq<char>>::empty());
    assert(seq![r].map_values(|x: RoleInfo| role_line(x, labels)) =~= seq![role_line(r, labels)]);
}

fn push_can(s: &mut String, allowed: bool)
    ensures
        final(s)@ == old(s)@ + can_word(allowed),
{
    if allowed {
        s.append("can");
    } else {
        s.append("can't");
    }
}

fn overwrite_text(o: &Overwrite) -> (s: String)
    ensures
        s@ == overwrite_line(*o),
{
    match o.role {
        Some(r) => {
            let mut s = String::from_str("Role ");
            append_role_mention(&mut s, r);
            s.append(" ");
            push_can(&mut s, o.can_view);
            s.append(" view the channel. Role ");
            append_role_mention(&mut s, r);
            s.append(" ");
            push_can(&mut s, o.can_send);
            s.append(" send messages in the channel.");
            s
        },
        None => String::new(),
    }
}

/// Lists a channel's permission overwrites, or answers `nothing` when the
/// listing is empty.
pub fn view_channel_permissions(overwrites: &Vec<Overwrite>, nothing: &str) -> (s: String)
    ensures
        s@ == permissions_listing(overwrites@, nothing@),
{
    let ghost lines = overwrites@.map_values(|o: Overwrite| overwrite_line(o));
    let mut text = String::new();
    let len = overwrites.len();
    let mut i: usize = 0;
    while i < len
        invariant
            len == overwrites@.len(),
            lines == overwrites@.map_values(|o: Overwrite| overwrite_line(o)),
            0 <= i <= len,
            text@ == join(lines.subrange(0, i as int), "\n"@),
        decreases len - i,
    {
        let line = overwrite_text(&overwrites[i]);
        if i > 0 {
            text.append("\n");
        }
        text.append(line.as_str());
        let ghost prefix = lines.subrange(0, i + 1);
        assert(prefix.drop_last() =~= lines.subrange(0, i as int));
        i = i + 1;
    }
    assert(lines.subrange(0, len as int) =~= lines);
    if text.unicode_len() == 0 {
        String::from_str(nothing)
    } else {
        text
    }
}

/// What the role listing shows of a role.
pub struct RoleInfo {
    pub name: String,
    pub id: u64,
    pub hoist: bool,
    pub position: i64,
    /// The role's permission bits.
    pub permissions: u64,
}

/// The words that the role listing is written with.
pub struct RoleLabels {
    pub hoisted: String,
    pub not_hoisted: String,
    pub position: String,
    pub permissions: String,
}

/// `name : id : hoisted : Position(p) : Permissions(bits)`, with the labels.
pub open spec fn role_line(r: RoleInfo, labels: RoleLabels) -> Seq<char> {
    r.name@ + " : "@ + decimal(r.id as nat) + " : "@ + (if r.hoist {
        labels.hoisted@
    } else {
        labels.not_hoisted@
    }) + " : "@ + labels.position@ + "("@ + signed_decimal(r.position as int) + ")"@ + " : "@
        + labels.permissions@ + "("@ + decimal(r.permissions as nat) + ")"@
}

/// The listing of the server's roles, one line per role.
pub open spec fn roles_listing(roles: Seq<RoleInfo>, labels: RoleLabels) -> Seq<char> {
    join(roles.map_values(|r: RoleInfo| role_line(r, labels)), "\n"@)
}

fn role_text(r: &RoleInfo, labels: &RoleLabels) -> (s: String)
    ensures
        s@ == role_line(*r, *labels),
{
    let mut s = r.name.clone();
    s.append(" : ");
    s.append(u64_text(r.id).as_str());
    s.append(" : ");
    if r.hoist {
        s.append(labels.hoisted.as_str());
    } else {
        s.append(labels.not_hoisted.as_str());
    }
    s.append(" : ");
    s.append(labels.position.as_str());
    s.append("(");
    s.append(i64_text(r.position).as_str());
    s.append(")");
    s.append(" : ");
    s.append(labels.permissions.as_str());
    s.append("(");
    s.append(u64_text(r.permissions).as_str());
    s.append(")");
    s
}

/// Lists the server's roles, one line per role, in the order given.
pub fn view_roles(roles: &Vec<RoleInfo>, labels: &RoleLabels) -> (s: String)
    ensures
        s@ == roles_listing(roles@, *labels),
{
    let ghost lines = roles@.map_values(|r: RoleInfo| role_line(r, *labels));
    let mut text = String::new();
    let len = roles.len();
    let mut i: usize = 0;
    while i < len
        invariant
            len == roles@.len(),
            lines == roles@.map_values(|r: RoleInfo| role_line(r, *labels)),
            0 <= i <= len,
            text@ == join(lines.subrange(0, i as int), "\n"@),
        decreases len - i,
    {
        let line = role_text(&roles[i], labels);
        if i > 0 {
            text.append("\n");
        }
        text.append(line.as_str());
        let ghost prefix = lines.subrange(0, i + 1);
        assert(prefix.drop_last() =~= lines.subrange(0, i as int));
        i = i + 1;
    }
    assert(lines.subrange(0, len as int) =~= lines);
    text
}

} // verus!
