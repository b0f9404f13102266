//! Decisions of the terminal client that do not depend on the terminal:
//! moving the selection in a list, reading a form into a request, checking a
//! master-password change, and the text shown for a field.

use vstd::prelude::*;

use crate::ipc::{EntryInput, EntryUpdateInput};
use crate::state::{FieldConfig, FieldType, FieldValue, FormState};
use crate::text::{concat_str, decimal, decimal_string};
use crate::vault::VaultSnapshot;

verus! {

/// The selection after moving down in a list of `max_index` rows: the next
/// row, wrapping to the first; the first row when nothing was selected. An
/// empty list keeps the selection.
pub fn next_index(selected: Option<usize>, max_index: usize) -> (res: Option<usize>)
    ensures
        max_index == 0 ==> res == selected,
        max_index > 0 ==> res == Some(
            match selected {
                Some(i) => ((i + 1) % (max_index as int)) as usize,
                None => 0,
            },
        ),
{
    if max_index > 0 {
        match selected {
            Some(i) => Some(((i as u128 + 1) % (max_index as u128)) as usize),
            None => Some(0),
        }
    } else {
        selected
    }
}

/// The selection after moving up in a list of `max_index` rows: the
/// previous row, wrapping from the first to the last; the last row when
/// nothing was selected. An empty list keeps the selection.
pub fn prev_index(selected: Option<usize>, max_index: usize) -> (res: Option<usize>)
    ensures
        max_index == 0 ==> res == selected,
        max_index > 0 ==> res == Some(
            match selected {
                Some(i) => if i == 0 {
                    (max_index - 1) as usize
                } else {
                    (i - 1) as usize
                },
                None => (max_index - 1) as usize,
            },
        ),
{
    if max_index > 0 {
        match selected {
            Some(i) => if i == 0 {
                Some(max_index - 1)
            } else {
                Some(i - 1)
            },
            None => Some(max_index - 1),
        }
    } else {
        selected
    }
}

/// The position in a list of `len` snapshots (oldest first) of the row
/// `visual_index` of the table, which shows the newest first.
pub fn snapshot_index_of_row(visual_index: usize, len: usize) -> (res: Option<usize>)
    ensures
        (len == 0 || visual_index >= len) ==> res is None,
        (len > 0 && visual_index < len) ==> res == Some((len - 1 - visual_index) as usize),
{
    if len == 0 || visual_index >= len {
        None
    } else {
        Some(len - 1 - visual_index)
    }
}

/// Why a master-password change was refused before it was sent.
pub open spec fn password_change_error(old: Seq<char>, new: Seq<char>, confirm: Seq<char>) -> Option<Seq<char>> {
    if new.len() == 0 || old.len() == 0 {
        Some("Fields cannot be empty!"@)
    } else if new != confirm {
        Some("New passwords do not match!"@)
    } else if new == old {
        Some("New password cannot be the same!"@)
    } else {
        None
    }
}

/// Checks a master-password change: no field empty, the new password
/// confirmed, and different from the current one.
pub fn validate_master_password_change(old: &str, new: &str, confirm: &str) -> (res: Result<(), &'static str>)
    ensures
        match password_change_error(old@, new@, confirm@) {
            Some(m) => res matches Err(e) && e@ == m,
            None => res is Ok,
        },
{
    let o = String::from_str(old);
    let n = String::from_str(new);
    let c = String::from_str(confirm);
    if n.as_str().unicode_len() == 0 || o.as_str().unicode_len() == 0 {
        return Err("Fields cannot be empty!");
    }
    if !(n == c) {
        return Err("New passwords do not match!");
    }
    if n == o {
        return Err("New password cannot be the same!");
    }
    Ok(())
}

/// The text that the last field of kind `kind` holding a text gives, if any.
pub open spec fn last_text_of(fields: Seq<FieldConfig>, kind: FieldType) -> Option<Seq<char>>
    decreases fields.len(),
{
    if fields.len() == 0 {
        None
    } else if fields.last().field_type == kind && fields.last().value is Text {
        Some(fields.last().value->Text_0@)
    } else {
        last_text_of(fields.drop_last(), kind)
    }
}

/// The text of `o`, or the empty text.
pub open spec fn or_empty(o: Option<Seq<char>>) -> Seq<char> {
    match o {
        Some(t) => t,
        None => Seq::empty(),
    }
}

/// The text of an optional string.
pub open spec fn opt_text(o: Option<String>) -> Option<Seq<char>> {
    match o {
        Some(s) => Some(s@),
        None => None,
    }
}

/// Reads the service, username and password fields of `form` (the last of
/// each kind wins).
fn read_entry_fields(form: &FormState) -> (res: (Option<String>, Option<String>, Option<String>))
    ensures
        opt_text(res.0) == last_text_of(form.fields@, FieldType::Service),
        opt_text(res.1) == last_text_of(form.fields@, FieldType::Username),
        opt_text(res.2) == last_text_of(form.fields@, FieldType::Password),
{
    let mut service: Option<String> = None;
    let mut username: Option<String> = None;
    let mut password: Option<String> = None;
    let mut i: usize = 0;
    while i < form.fields.len()
        invariant
            i <= form.fields.len(),
            opt_text(service) == last_text_of(form.fields@.subrange(0, i as int), FieldType::Service),
            opt_text(username) == last_text_of(form.fields@.subrange(0, i as int), FieldType::Username),
            opt_text(password) == last_text_of(form.fields@.subrange(0, i as int), FieldType::Password),
        decreases form.fields.len() - i,
    {
        proof {
            assert(form.fields@.subrange(0, i as int + 1).drop_last() =~= form.fields@.subrange(0, i as int));
        }
        let field = &form.fields[i];
        if let FieldValue::Text(text) = &field.value {
            match field.field_type {
                FieldType::Service => service = Some(text.clone()),
                FieldType::Username => username = Some(text.clone()),
                FieldType::Password => password = Some(text.clone()),
                _ => {},
            }
        }
        i = i + 1;
    }
    assert(form.fields@.subrange(0, i as int) =~= form.fields@);
    (service, username, password)
}

/// The new entry that an entry form describes, or the status message when
/// a field is empty.
pub fn entry_input_from_form(form: &FormState) -> (res: Result<EntryInput, &'static str>)
    ensures
        ({
            let s = or_empty(last_text_of(form.fields@, FieldType::Service));
            let u = or_empty(last_text_of(form.fields@, FieldType::Username));
            let p = or_empty(last_text_of(form.fields@, FieldType::Password));
            if s.len() == 0 || u.len() == 0 || p.len() == 0 {
                res matches Err(m) && m@ == "All fields are required!"@
            } else {
                res matches Ok(e) && e.service@ == s && e.username@ == u && e.password@ == p
            }
        }),
{
    let (s, u, p) = read_entry_fields(form);
    let service = match s {
        Some(x) => x,
        None => String::new(),
    };
    let username = match u {
        Some(x) => x,
        None => String::new(),
    };
    let password = match p {
        Some(x) => x,
        None => String::new(),
    };
    if service.as_str().unicode_len() == 0 || username.as_str().unicode_len() == 0
        || password.as_str().unicode_len() == 0 {
        return Err("All fields are required!");
    }
    Ok(EntryInput { service, username, password })
}

/// The change to the entry `uuid` that an edit form describes: each of the
/// service, username and password fields present gives the new value.
pub fn update_input_from_form(form: &FormState, uuid: u128) -> (res: EntryUpdateInput)
    ensures
        res.uuid == uuid,
        opt_text(res.service) == last_text_of(form.fields@, FieldType::Service),
        opt_text(res.username) == last_text_of(form.fields@, FieldType::Username),
        opt_text(res.password) == last_text_of(form.fields@, FieldType::Password),
{
    let (service, username, password) = read_entry_fields(form);
    EntryUpdateInput { uuid, service, username, password }
}

/// The highest version among the snapshot records with identifier `uuid`,
/// or 0 when there is none.
pub open spec fn latest_version(snapshots: Seq<VaultSnapshot>, uuid: u128) -> u32
    decreases snapshots.len(),
{
    if snapshots.len() == 0 {
        0
    } else {
        let rest = latest_version(snapshots.drop_last(), uuid);
        let s = snapshots.last();
        if s.uuid == uuid && s.version >= rest {
            s.version
        } else {
            rest
        }
    }
}

/// The version to restore for the snapshot `uuid`: the one given, else the
/// highest recorded for it.
pub fn restore_version(snapshots: &Vec<VaultSnapshot>, uuid: u128, version: Option<u32>) -> (res: u32)
    ensures
        res == match version {
            Some(v) => v,
            None => latest_version(snapshots@, uuid),
        },
{
    let mut best: u32 = 0;
    let mut i: usize = 0;
    while i < snapshots.len()
        invariant
            i <= snapshots.len(),
            best == latest_version(snapshots@.subrange(0, i as int), uuid),
        decreases snapshots.len() - i,
    {
        proof {
            assert(snapshots@.subrange(0, i as int + 1).drop_last() =~= snapshots@.subrange(0, i as int));
        }
        if snapshots[i].uuid == uuid && snapshots[i].version >= best {
            best = snapshots[i].version;
        }
        i = i + 1;
    }
    assert(snapshots@.subrange(0, i as int) =~= snapshots@);
    match version {
        Some(v) => v,
        None => best,
    }
}

/// The text shown for a field's value: the text itself, the number in
/// decimal, `< option >` for a menu, `[X]` or `[ ]` for a checkbox.
pub open spec fn display_text(f: FieldConfig) -> Seq<char> {
    match f.value {
        FieldValue::Text(s) => s@,
        FieldValue::Number(n) => decimal(n as nat),
        FieldValue::Choice(i) => if f.field_type is Choice {
            "< "@ + (if i == 0 {
                "Random Chars"@
            } else if i == 1 {
                "Passphrase"@
            } else {
                Seq::empty()
            }) + " >"@
        } else {
            Seq::empty()
        },
        FieldValue::Boolean(b) => if b {
            "[X]"@
        } else {
            "[ ]"@
        },
    }
}

/// The text shown for the value of `field`.
pub fn field_display_text(field: &FieldConfig) -> (res: String)
    ensures
        res@ == display_text(*field),
{
    match &field.value {
        FieldValue::Text(s) => s.clone(),
        FieldValue::Number(n) => decimal_string(*n as u64),
        FieldValue::Choice(idx) => {
            if let FieldType::Choice(menu) = field.field_type {
                let options = menu.options();
                let label: &str = if *idx < options.len() {
                    options[*idx]
                } else {
                    ""
                };
                proof {
                    let names = crate::state::generator_mode_options();
                    assert(names[0] == "Random Chars"@ && names[1] == "Passphrase"@);
                    assert(options@.map_values(|o: &str| o@)[0] == options@[0]@);
                    assert(options@.map_values(|o: &str| o@)[1] == options@[1]@);
                    assert(*idx < 2 ==> label@ == names[*idx as int]);
                    reveal_strlit("");
                }
                let a = concat_str("< ", label);
                concat_str(a.as_str(), " >")
            } else {
                String::new()
            }
        },
        FieldValue::Boolean(b) => {
            if *b {
                String::from_str("[X]")
            } else {
                String::from_str("[ ]")
            }
        },
    }
}

/// As many `*` as `content` has bytes: a masked password.
pub fn masked(content: &str) -> (res: String)
    ensures
        res@ == Seq::new(crate::text::byte_len(content@) as nat, |i: int| '*'),
{
    let n = content.len();
    let mut res = String::new();
    let mut i: usize = 0;
    while i < n
        invariant
            i <= n,
            n == crate::text::byte_len(content@),
            res@ == Seq::new(i as nat, |k: int| '*'),
        decreases n - i,
    {
        crate::text::push_char(&mut res, '*');
        i = i + 1;
        assert(res@ =~= Seq::new(i as nat, |k: int| '*'));
    }
    res
}

} // verus!
