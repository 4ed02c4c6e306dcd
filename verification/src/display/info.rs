//! The info screen's reporting pages: label/value rows, because a field whose value wrapped
//! mid-address would be worse than one that is cut. A page shows as many rows as fit under its
//! title, each value cut to the field beside its label.
use vstd::prelude::*;
use crate::display::layout::Layout;
use crate::display::page::Tone;
use crate::display::view::DeviceView;
use crate::display::wrap::{Cut, utf8_len};
use vstd::string::StringExecFns;

verus! {

/// The buttons page's body.
pub const BUTTONS: &'static str = "A allows the pending tool call.\nB denies it.\nHold A for the menu.\nFace down to nap.";

/// The label field on the reporting pages, in characters.
pub const FIELD_LABEL_COLS: usize = 5;

/// One label/value row of a reporting page.
#[derive(Clone, PartialEq, Eq, Debug)]
pub struct FieldRow {
    /// The label.
    pub label: String,
    /// The value.
    pub value: String,
    /// The tone the value is drawn in.
    pub tone: Tone,
}

/// A row as label, value and tone.
pub open spec fn field_view(r: FieldRow) -> (Seq<char>, Seq<char>, Tone) {
    (r.label@, r.value@, r.tone)
}

/// What the device page reports: the name, bright; the firmware and the owner, dim.
pub open spec fn device_fields_of(d: DeviceView) -> Seq<(Seq<char>, Seq<char>, Tone)> {
    seq![("NAME"@, d.name@, Tone::Primary), ("FW"@, d.firmware@, Tone::Dim), ("OWNER"@, d.owner@, Tone::Dim)]
}

/// What the bluetooth page reports: the address, and bonded and linked as two separate facts —
/// a bonded stick with no link is a bridge that is not running.
pub open spec fn bluetooth_fields_of(d: DeviceView) -> Seq<(Seq<char>, Seq<char>, Tone)> {
    seq![
        ("ADDR"@, d.address@, Tone::Dim),
        ("BOND"@, if d.bonded { "yes"@ } else { "no"@ }, if d.bonded { Tone::Linked } else { Tone::Unlinked }),
        ("LINK"@, if d.linked { "up"@ } else { "down"@ }, if d.linked { Tone::Linked } else { Tone::Unlinked }),
    ]
}

/// Each row of the device and bluetooth pages reports the field its label names: the name,
/// the firmware version and the owner label; the address, whether a central is bonded, and
/// whether the link is up.
pub proof fn each_row_reports_the_field_it_names(d: DeviceView)
    ensures
        device_fields_of(d).len() == 3,
        device_fields_of(d)[0].0 == "NAME"@ && device_fields_of(d)[0].1 == d.name@,
        device_fields_of(d)[1].0 == "FW"@ && device_fields_of(d)[1].1 == d.firmware@,
        device_fields_of(d)[2].0 == "OWNER"@ && device_fields_of(d)[2].1 == d.owner@,
        device_fields_of(d)[0].2 == Tone::Primary && device_fields_of(d)[1].2 == Tone::Dim
            && device_fields_of(d)[2].2 == Tone::Dim,
        bluetooth_fields_of(d).len() == 3,
        bluetooth_fields_of(d)[0].0 == "ADDR"@ && bluetooth_fields_of(d)[0].1 == d.address@,
        bluetooth_fields_of(d)[1].0 == "BOND"@ && (bluetooth_fields_of(d)[1].1 == "yes"@ <==> d.bonded),
        bluetooth_fields_of(d)[2].0 == "LINK"@ && (bluetooth_fields_of(d)[2].1 == "up"@ <==> d.linked),
{
    reveal_strlit("yes");
    reveal_strlit("no");
    reveal_strlit("up");
    reveal_strlit("down");
    assert("yes"@ != "no"@) by {
        assert("yes"@.len() != "no"@.len());
    }
    assert("up"@ != "down"@) by {
        assert("up"@.len() != "down"@.len());
    }
}

/// The device page reads the name, the firmware and the owner label and nothing else: two
/// sticks that agree on those show the same page, whatever their addresses and link state;
/// and the bluetooth page reads only the address, the bond and the link.
pub proof fn each_page_reads_only_its_fields(d1: DeviceView, d2: DeviceView)
    ensures
        d1.name@ == d2.name@ && d1.firmware@ == d2.firmware@ && d1.owner@ == d2.owner@
            ==> device_fields_of(d1) == device_fields_of(d2),
        d1.address@ == d2.address@ && d1.bonded == d2.bonded && d1.linked == d2.linked
            ==> bluetooth_fields_of(d1) == bluetooth_fields_of(d2),
{
}

/// A row of `label`, `value` and `tone`.
fn field(label: &str, value: String, tone: Tone) -> (r: FieldRow)
    ensures
        field_view(r) == (label@, value@, tone),
{
    FieldRow { label: String::from_str(label), value, tone }
}

/// The device page's rows.
pub fn device_fields(device: &DeviceView) -> (r: Vec<FieldRow>)
    ensures
        r@.map_values(|f: FieldRow| field_view(f)) == device_fields_of(*device),
{
    let r: Vec<FieldRow> = vec![
        field("NAME", device.name.clone(), Tone::Primary),
        field("FW", device.firmware.clone(), Tone::Dim),
        field("OWNER", device.owner.clone(), Tone::Dim),
    ];
    proof {
        assert(r@.map_values(|f: FieldRow| field_view(f)) =~= device_fields_of(*device));
    }
    r
}

/// The bluetooth page's rows.
pub fn bluetooth_fields(device: &DeviceView) -> (r: Vec<FieldRow>)
    ensures
        r@.map_values(|f: FieldRow| field_view(f)) == bluetooth_fields_of(*device),
{
    let bond: FieldRow = if device.bonded {
        field("BOND", String::from_str("yes"), Tone::Linked)
    } else {
        field("BOND", String::from_str("no"), Tone::Unlinked)
    };
    let link: FieldRow = if device.linked {
        field("LINK", String::from_str("up"), Tone::Linked)
    } else {
        field("LINK", String::from_str("down"), Tone::Unlinked)
    };
    let r: Vec<FieldRow> = vec![field("ADDR", device.address.clone(), Tone::Dim), bond, link];
    proof {
        assert(r@.map_values(|f: FieldRow| field_view(f)) =~= bluetooth_fields_of(*device));
    }
    r
}

/// How many of `n` rows a reporting page on a grid of `rows` rows shows: the lesser of the
/// count and the rows under the title.
pub open spec fn fields_shown(n: nat, rows: nat) -> nat {
    if n < rows - 1 { n } else { (rows - 1) as nat }
}

/// Whether `shown` is `row` with its value cut to `cols` bytes: the same label and tone, and
/// the longest leading run of the value's characters whose UTF-8 fits.
pub open spec fn cut_row(shown: FieldRow, row: FieldRow, cols: nat) -> bool {
    let v = shown.value@;
    let w = row.value@;
    &&& shown.label@ == row.label@
    &&& shown.tone == row.tone
    &&& v.len() <= w.len()
    &&& v == w.take(v.len() as int)
    &&& utf8_len(v) <= cols
    &&& v.len() < w.len() ==> utf8_len(w.take(v.len() as int + 1)) > cols
}

/// The rows a reporting page on `layout` shows of `rows`: the first [`fields_shown`], in order,
/// each value cut to the columns beside the label — the longest leading run of its characters
/// whose UTF-8 fits that many bytes.
pub fn fields(layout: &Layout, rows: &Vec<FieldRow>) -> (r: Vec<FieldRow>)
    requires
        layout.rows >= 1,
        layout.cols >= FIELD_LABEL_COLS,
    ensures
        r@.len() == fields_shown(rows@.len(), layout.rows as nat),
        forall|k: int| 0 <= k < r@.len() ==> #[trigger] cut_row(r@[k], rows@[k], (layout.cols - FIELD_LABEL_COLS) as nat),
{
    let value_cols: usize = layout.cols - FIELD_LABEL_COLS;
    let shown: usize = if rows.len() < layout.rows - 1 { rows.len() } else { layout.rows - 1 };
    let mut out: Vec<FieldRow> = Vec::new();
    let mut k: usize = 0;
    while k < shown
        invariant
            k <= shown,
            shown <= rows@.len(),
            value_cols == layout.cols - FIELD_LABEL_COLS,
            out@.len() == k,
            forall|j: int| 0 <= j < k ==> #[trigger] cut_row(out@[j], rows@[j], value_cols as nat),
        decreases shown - k,
    {
        let src: &str = rows[k].value.as_str();
        let value: String = Cut(src, value_cols).to_string();
        let label: String = rows[k].label.clone();
        proof {
            assert(src@ == rows@[k as int].value@);
            assert(label@ == rows@[k as int].label@);
            assert(value@ == src@.take(value@.len() as int));
        }
        let ghost before = out@;
        let ghost vv = value@;
        let ghost lv = label@;
        out.push(FieldRow { label, value, tone: rows[k].tone });
        proof {
            assert(out@[k as int].value@ == vv);
            assert(out@[k as int].label@ == lv);
            assert(vv.len() < src@.len() ==> utf8_len(src@.take(vv.len() as int + 1)) > value_cols);
        }
        proof {
            assert forall|j: int| 0 <= j < k + 1 implies #[trigger] cut_row(out@[j], rows@[j], value_cols as nat) by {
                if j < k {
                    assert(out@[j] == before[j]);
                    assert(cut_row(before[j], rows@[j], value_cols as nat));
                } else {
                    assert(j == k);
                    assert(out@[j].value@ == vv);
                }
            }
        }
        k = k + 1;
    }
    out
}

} // verus!
