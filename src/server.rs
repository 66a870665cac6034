//! The station: its printed header, its tanks, and the reports and settings
//! that the console protocol reaches.

use vstd::prelude::*;
use vstd::string::*;
use vstd::utf8::encode_utf8;
use crate::table::{
    lemma_layout_columns, render, rows_of_width, tabulated, INVENTORY_LAYOUT, LABEL_LAYOUT, LINE_END,
    STATUS_LAYOUT,
};
use crate::stamp::LocalTime;
use crate::tank::{Tank, Warning, LABEL_WIDTH};
use crate::text::{decimal, decimal_text, left_justified, pad_left, pad_right, right_justified};

verus! {

/// The four lines printed at the top of every report.
pub struct HeaderConfig {
    pub line1: String,
    pub line2: String,
    pub line3: String,
    pub line4: String,
}

/// A setting that the station refuses.
#[derive(Clone, Copy, Debug, PartialEq, Eq, Structural)]
pub enum RequestError {
    /// A header line number outside 1 to 4.
    InvalidLineNumber,
    /// A tank number past the last tank.
    NoSuchTank,
}

/// A line end.
pub open spec fn crlf() -> Seq<char> {
    seq!['\r', '\n']
}

/// The positions (1-based) among the first `n` tanks that selector `sel`
/// picks, in order: all of them for 0, else the one numbered `sel`.
pub open spec fn chosen(n: nat, sel: nat) -> Seq<nat>
    decreases n,
{
    if n == 0 {
        Seq::empty()
    } else if sel == 0 || sel == n {
        chosen((n - 1) as nat, sel).push(n)
    } else {
        chosen((n - 1) as nat, sel)
    }
}

/// The tank number as printed in a report's first column.
pub open spec fn position_cell(p: nat) -> Seq<char> {
    pad_left(decimal(p), 2)
}

pub open spec fn inventory_headings() -> Seq<Seq<char>> {
    seq![
        "TANK"@,
        "PRODUCT"@,
        "VOLUME"@,
        "TC VOLUME"@,
        "ULLAGE"@,
        "HEIGHT"@,
        "WATER"@,
        "TEMP"@,
    ]
}

/// The inventory row of the tank at position `p`.
pub open spec fn inventory_row(p: nat, t: Tank) -> Seq<Seq<char>> {
    seq![
        position_cell(p),
        t.product@,
        t.gauge.volume@,
        t.gauge.tc_volume@,
        t.gauge.ullage@,
        t.gauge.height@,
        t.gauge.water@,
        t.gauge.temp@,
    ]
}

/// The inventory rows of the tanks at positions `ps`, in order.
pub open spec fn inventory_rows_at(tanks: Seq<Tank>, ps: Seq<nat>) -> Seq<Seq<Seq<char>>> {
    ps.map_values(|p: nat| inventory_row(p, tanks[p - 1]))
}

/// The rows of the inventory report for selector `sel`: the headings, then
/// one row for each chosen tank.
pub open spec fn inventory_table(tanks: Seq<Tank>, sel: nat) -> Seq<Seq<Seq<char>>> {
    seq![inventory_headings()] + inventory_rows_at(tanks, chosen(tanks.len(), sel))
}

pub open spec fn status_headings() -> Seq<Seq<char>> {
    seq!["TANK"@, "PRODUCT"@, "STATUS"@]
}

/// The primary status: the first warning, or `NORMAL` where there is none.
pub open spec fn primary_status(warnings: Seq<Warning>) -> Seq<char> {
    if warnings.len() == 0 {
        "NORMAL"@
    } else {
        warnings[0].label()
    }
}

/// A status row with blank number and product.
pub open spec fn continuation_row(w: Warning) -> Seq<Seq<char>> {
    seq![Seq::<char>::empty(), Seq::<char>::empty(), w.label()]
}

pub open spec fn continuation_rows(ws: Seq<Warning>) -> Seq<Seq<Seq<char>>> {
    ws.map_values(|w: Warning| continuation_row(w))
}

/// The status rows of the tank at position `p`: its number, product and
/// primary status, then a row with blank number and product for each
/// further warning, in order.
pub open spec fn status_block(p: nat, t: Tank) -> Seq<Seq<Seq<char>>> {
    seq![seq![position_cell(p), t.product@, primary_status(t.warnings@)]] + if t.warnings@.len()
        == 0 {
        Seq::empty()
    } else {
        continuation_rows(t.warnings@.skip(1))
    }
}

/// The status rows of the tanks at positions `ps`, in order.
pub open spec fn status_blocks(tanks: Seq<Tank>, ps: Seq<nat>) -> Seq<Seq<Seq<char>>>
    decreases ps.len(),
{
    if ps.len() == 0 {
        Seq::empty()
    } else {
        status_blocks(tanks, ps.drop_last()) + status_block(ps.last(), tanks[ps.last() - 1])
    }
}

/// The rows of the status report for selector `sel`.
pub open spec fn status_table(tanks: Seq<Tank>, sel: nat) -> Seq<Seq<Seq<char>>> {
    seq![status_headings()] + status_blocks(tanks, chosen(tanks.len(), sel))
}

pub open spec fn label_headings() -> Seq<Seq<char>> {
    seq!["TANK"@, "PRODUCT LABEL"@]
}

/// The rows of the product label report: every tank, its label left-justified.
pub open spec fn label_table(tanks: Seq<Tank>) -> Seq<Seq<Seq<char>>> {
    seq![label_headings()] + Seq::new(
        tanks.len(),
        |k: int| seq![position_cell((k + 1) as nat), pad_right(tanks[k].product@, LABEL_WIDTH as nat)],
    )
}

/// `after` is `before` with the product label of the tanks that `sel` picks
/// set to `product`, and nothing else changed.
pub open spec fn relabelled(before: Seq<Tank>, after: Seq<Tank>, sel: nat, product: Seq<char>) -> bool {
    &&& after.len() == before.len()
    &&& forall|k: int|
        0 <= k < before.len() ==> {
            &&& after[k].gauge == before[k].gauge
            &&& after[k].warnings@ == before[k].warnings@
            &&& after[k].product@ == if sel == 0 || sel == k + 1 {
                product
            } else {
                before[k].product@
            }
        }
}

/// The common start of every report: the start-of-header byte, the function
/// code, the time stamp, a blank line, the four header lines (each
/// left-justified to the label width) and a blank line, joined by line ends.
pub open spec fn header_text(code: Seq<char>, stamp: Seq<char>, header: Seq<Seq<char>>) -> Seq<char> {
    seq!['\x01'] + crlf() + code + crlf() + stamp + crlf() + crlf() + pad_right(
        header[0],
        LABEL_WIDTH as nat,
    ) + crlf() + pad_right(header[1], LABEL_WIDTH as nat) + crlf() + pad_right(
        header[2],
        LABEL_WIDTH as nat,
    ) + crlf() + pad_right(header[3], LABEL_WIDTH as nat) + crlf()
}

/// The confirmation of a header line setting.
pub open spec fn header_set_text(line: nat, text: Seq<char>) -> Seq<char> {
    "# "@ + decimal(line) + ": "@ + text
}

/// The station: four header lines and the tanks, numbered from 1.
pub struct Server {
    header: Vec<String>,
    tanks: Vec<Tank>,
}

fn push_line(r: &mut String, s: &str)
    ensures
        final(r)@ == old(r)@ + s@ + crlf(),
{
    r.append(s);
    let end = LINE_END;
    proof {
        reveal_strlit("\r\n");
    }
    r.append(end);
}

fn text_bytes(s: &String) -> (r: Vec<u8>)
    ensures
        r@ == encode_utf8(s@),
{
    s.as_str().as_bytes_vec()
}

fn position_text(p: usize) -> (r: String)
    ensures
        r@ == position_cell(p as nat),
{
    let d = decimal_text(p);
    right_justified(d.as_str(), 2)
}

fn inventory_heading_cells() -> (r: Vec<String>)
    ensures
        r.deep_view() == inventory_headings(),
{
    let r = vec![
        String::from_str("TANK"),
        String::from_str("PRODUCT"),
        String::from_str("VOLUME"),
        String::from_str("TC VOLUME"),
        String::from_str("ULLAGE"),
        String::from_str("HEIGHT"),
        String::from_str("WATER"),
        String::from_str("TEMP"),
    ];
    assert(r.deep_view() =~= inventory_headings());
    r
}

fn inventory_cells(p: usize, t: &Tank) -> (r: Vec<String>)
    ensures
        r.deep_view() == inventory_row(p as nat, *t),
{
    let r = vec![
        position_text(p),
        t.product.clone(),
        t.gauge.volume.clone(),
        t.gauge.tc_volume.clone(),
        t.gauge.ullage.clone(),
        t.gauge.height.clone(),
        t.gauge.water.clone(),
        t.gauge.temp.clone(),
    ];
    assert(r.deep_view() =~= inventory_row(p as nat, *t));
    r
}

fn status_heading_cells() -> (r: Vec<String>)
    ensures
        r.deep_view() == status_headings(),
{
    let r = vec![String::from_str("TANK"), String::from_str("PRODUCT"), String::from_str("STATUS")];
    assert(r.deep_view() =~= status_headings());
    r
}

fn label_heading_cells() -> (r: Vec<String>)
    ensures
        r.deep_view() == label_headings(),
{
    let r = vec![String::from_str("TANK"), String::from_str("PRODUCT LABEL")];
    assert(r.deep_view() =~= label_headings());
    r
}

/// Appends the status rows of the tank at position `p`.
fn push_status_block(rows: &mut Vec<Vec<String>>, p: usize, t: &Tank)
    ensures
        final(rows).deep_view() == old(rows).deep_view() + status_block(p as nat, *t),
{
    let n = t.warnings.len();
    let first = if n == 0 {
        String::from_str("NORMAL")
    } else {
        t.warnings[0].to_string()
    };
    let row = vec![position_text(p), t.product.clone(), first];
    assert(row.deep_view() =~= seq![position_cell(p as nat), t.product@, primary_status(t.warnings@)]);
    let ghost prev = rows.deep_view();
    rows.push(row);
    assert(rows.deep_view() =~= prev.push(
        seq![position_cell(p as nat), t.product@, primary_status(t.warnings@)],
    ));
    let ghost base = rows.deep_view();
    if n > 0 {
        let mut j: usize = 1;
        while j < n
            invariant
                1 <= j <= n,
                n == t.warnings@.len(),
                rows.deep_view() == base + continuation_rows(t.warnings@.subrange(1, j as int)),
            decreases n - j,
        {
            let w = t.warnings[j].to_string();
            let row = vec![String::new(), String::new(), w];
            assert(row.deep_view() =~= continuation_row(t.warnings@[j as int]));
            let ghost prev = rows.deep_view();
            rows.push(row);
            assert(rows.deep_view() =~= prev.push(continuation_row(t.warnings@[j as int])));
            assert(t.warnings@.subrange(1, j + 1) =~= t.warnings@.subrange(1, j as int).push(
                t.warnings@[j as int],
            ));
            assert(continuation_rows(t.warnings@.subrange(1, j + 1)) =~= continuation_rows(
                t.warnings@.subrange(1, j as int),
            ).push(continuation_row(t.warnings@[j as int])));
            j = j + 1;
            assert(rows.deep_view() =~= base + continuation_rows(t.warnings@.subrange(1, j as int)));
        }
        assert(t.warnings@.subrange(1, n as int) =~= t.warnings@.skip(1));
    }
    assert(rows.deep_view() =~= old(rows).deep_view() + status_block(p as nat, *t));
}

impl Server {
    /// The four header lines.
    pub closed spec fn header_lines(&self) -> Seq<Seq<char>> {
        self.header.deep_view()
    }

    /// The tanks, in position order.
    pub closed spec fn tank_list(&self) -> Seq<Tank> {
        self.tanks@
    }

    /// A station has exactly four header lines.
    pub open spec fn wf(&self) -> bool {
        self.header_lines().len() == 4
    }

    /// A station with the given header lines, each left-justified to the
    /// label width, and tanks.
    pub fn new(header: HeaderConfig, tanks: Vec<Tank>) -> (r: Server)
        ensures
            r.wf(),
            r.header_lines() == seq![
                pad_right(header.line1@, LABEL_WIDTH as nat),
                pad_right(header.line2@, LABEL_WIDTH as nat),
                pad_right(header.line3@, LABEL_WIDTH as nat),
                pad_right(header.line4@, LABEL_WIDTH as nat),
            ],
            r.tank_list() == tanks@,
    {
        let lines = vec![
            left_justified(header.line1.as_str(), LABEL_WIDTH),
            left_justified(header.line2.as_str(), LABEL_WIDTH),
            left_justified(header.line3.as_str(), LABEL_WIDTH),
            left_justified(header.line4.as_str(), LABEL_WIDTH),
        ];
        let r = Server { header: lines, tanks };
        assert(r.header_lines() =~= seq![
            pad_right(header.line1@, LABEL_WIDTH as nat),
            pad_right(header.line2@, LABEL_WIDTH as nat),
            pad_right(header.line3@, LABEL_WIDTH as nat),
            pad_right(header.line4@, LABEL_WIDTH as nat),
        ]);
        r
    }

    /// The report header for function code `code`, stamped with `now`, as text.
    pub fn header_string(&self, code: &str, now: &LocalTime) -> (r: String)
        requires
            self.wf(),
            now.wf(),
        ensures
            r@ == header_text(code@, now.text(), self.header_lines()),
    {
        let stamp_line = now.stamp();
        let stamp = stamp_line.as_str();
        proof {
            reveal_strlit("\x01");
            reveal_strlit("");
        }
        let mut r = String::new();
        push_line(&mut r, "\x01");
        push_line(&mut r, code);
        push_line(&mut r, stamp);
        push_line(&mut r, "");
        let line = left_justified(self.header[0].as_str(), LABEL_WIDTH);
        push_line(&mut r, line.as_str());
        let line = left_justified(self.header[1].as_str(), LABEL_WIDTH);
        push_line(&mut r, line.as_str());
        let line = left_justified(self.header[2].as_str(), LABEL_WIDTH);
        push_line(&mut r, line.as_str());
        let line = left_justified(self.header[3].as_str(), LABEL_WIDTH);
        push_line(&mut r, line.as_str());
        assert(r@ =~= header_text(code@, now.text(), self.header_lines()));
        r
    }

    /// The report header for function code `code`, stamped with `now`.
    pub fn build_header(&self, code: &str, now: &LocalTime) -> (r: Vec<u8>)
        requires
            self.wf(),
            now.wf(),
        ensures
            r@ == encode_utf8(header_text(code@, now.text(), self.header_lines())),
    {
        let s = self.header_string(code, now);
        text_bytes(&s)
    }

    /// The rows of the inventory report for selector `tank`: all tanks for 0,
    /// else the tank numbered `tank`, none where there is no such tank.
    pub fn inventory_rows(&self, tank: usize) -> (r: Vec<Vec<String>>)
        ensures
            r.deep_view() == inventory_table(self.tank_list(), tank as nat),
    {
        let ghost tanks = self.tank_list();
        let mut rows: Vec<Vec<String>> = Vec::new();
        rows.push(inventory_heading_cells());
        let n = self.tanks.len();
        let mut k: usize = 0;
        while k < n
            invariant
                k <= n,
                n == tanks.len(),
                tanks == self.tank_list(),
                rows.deep_view() == seq![inventory_headings()] + inventory_rows_at(
                    tanks,
                    chosen(k as nat, tank as nat),
                ),
            decreases n - k,
        {
            let ghost before = chosen(k as nat, tank as nat);
            if tank == 0 || tank == k + 1 {
                let row = inventory_cells(k + 1, &self.tanks[k]);
                let ghost prev = rows.deep_view();
                rows.push(row);
                assert(rows.deep_view() =~= prev.push(inventory_row((k + 1) as nat, tanks[k as int])));
                assert(inventory_rows_at(tanks, before.push((k + 1) as nat)) =~= inventory_rows_at(
                    tanks,
                    before,
                ).push(inventory_row((k + 1) as nat, tanks[k as int])));
            }
            k = k + 1;
            assert(rows.deep_view() =~= seq![inventory_headings()] + inventory_rows_at(
                tanks,
                chosen(k as nat, tank as nat),
            ));
        }
        rows
    }

    /// The inventory report for selector `tank`.
    pub fn i20100(&self, tank: usize) -> (r: Vec<u8>)
        ensures
            r@ == encode_utf8(
                tabulated(INVENTORY_LAYOUT@, LINE_END@, inventory_table(self.tank_list(), tank as nat)),
            ),
    {
        let rows = self.inventory_rows(tank);
        proof {
            lemma_layout_columns();
            lemma_inventory_rows_width(self.tank_list(), tank as nat);
        }
        let s = render(INVENTORY_LAYOUT, LINE_END, &rows);
        text_bytes(&s)
    }

    /// Sets header line `i` (1 to 4) to `label` and confirms with
    /// `# i: label`; any other line number is refused and changes nothing.
    pub fn s503tt(&mut self, i: usize, label: String) -> (r: Result<Vec<u8>, RequestError>)
        requires
            old(self).wf(),
        ensures
            final(self).wf(),
            final(self).tank_list() == old(self).tank_list(),
            1 <= i <= 4 ==> {
                &&& r is Ok
                &&& r->Ok_0@ == encode_utf8(header_set_text(i as nat, label@))
                &&& final(self).header_lines() == old(self).header_lines().update(i - 1, label@)
            },
            !(1 <= i <= 4) ==> {
                &&& r == Err::<Vec<u8>, RequestError>(RequestError::InvalidLineNumber)
                &&& final(self).header_lines() == old(self).header_lines()
            },
    {
        if i < 1 || i > 4 {
            return Err(RequestError::InvalidLineNumber);
        }
        let mut text = String::from_str("# ");
        let number = decimal_text(i);
        text.append(number.as_str());
        text.append(": ");
        text.append(label.as_str());
        proof {
            reveal_strlit("# ");
            reveal_strlit(": ");
        }
        assert(text@ =~= header_set_text(i as nat, label@));
        let ghost before = self.header.deep_view();
        let ghost line = label@;
        self.header.set(i - 1, label);
        assert(self.header.deep_view() =~= before.update(i - 1, line));
        Ok(text_bytes(&text))
    }

    /// The rows of the product label report: every tank, its label
    /// left-justified to the label width.
    pub fn product_label_rows(&self) -> (r: Vec<Vec<String>>)
        ensures
            r.deep_view() == label_table(self.tank_list()),
    {
        let ghost tanks = self.tank_list();
        let mut rows: Vec<Vec<String>> = Vec::new();
        rows.push(label_heading_cells());
        let n = self.tanks.len();
        let mut k: usize = 0;
        while k < n
            invariant
                k <= n,
                n == tanks.len(),
                tanks == self.tank_list(),
                rows.deep_view() =~= label_table(tanks).take(k + 1),
            decreases n - k,
        {
            let row = vec![
                position_text(k + 1),
                left_justified(self.tanks[k].product.as_str(), LABEL_WIDTH),
            ];
            assert(row.deep_view() =~= label_table(tanks)[k + 1]);
            let ghost prev = rows.deep_view();
            rows.push(row);
            assert(rows.deep_view() =~= prev.push(label_table(tanks)[k + 1]));
            k = k + 1;
            assert(rows.deep_view() =~= label_table(tanks).take(k + 1));
        }
        assert(label_table(tanks).take(n + 1) =~= label_table(tanks));
        rows
    }

    /// Sets the product label of every tank for selector 0, else of the tank
    /// numbered `tank`, and returns the product label report of all tanks. A
    /// tank number past the last tank is refused and changes nothing.
    pub fn s602tt(&mut self, tank: usize, product: String) -> (r: Result<Vec<u8>, RequestError>)
        requires
            old(self).wf(),
        ensures
            final(self).wf(),
            final(self).header_lines() == old(self).header_lines(),
            r is Err <==> tank > old(self).tank_list().len(),
            r is Err ==> {
                &&& r == Err::<Vec<u8>, RequestError>(RequestError::NoSuchTank)
                &&& final(self).tank_list() == old(self).tank_list()
            },
            r is Ok ==> {
                &&& relabelled(old(self).tank_list(), final(self).tank_list(), tank as nat, product@)
                &&& r->Ok_0@ == encode_utf8(
                    tabulated(LABEL_LAYOUT@, LINE_END@, label_table(final(self).tank_list())),
                )
            },
    {
        if tank > 0 && self.tanks.len() < tank {
            return Err(RequestError::NoSuchTank);
        }
        let ghost start = self.tanks@;
        let n = self.tanks.len();
        let mut k: usize = 0;
        while k < n
            invariant
                k <= n,
                n == start.len(),
                self.header == old(self).header,
                self.tanks@.len() == n,
                forall|j: int|
                    0 <= j < n ==> {
                        &&& self.tanks@[j].gauge == start[j].gauge
                        &&& self.tanks@[j].warnings@ == start[j].warnings@
                        &&& self.tanks@[j].product@ == if j < k && (tank == 0 || tank == j + 1) {
                            product@
                        } else {
                            start[j].product@
                        }
                    },
            decreases n - k,
        {
            let ghost prev = self.tanks@;
            if tank == 0 || tank == k + 1 {
                let mut t = self.tanks.remove(k);
                t.product = product.clone();
                self.tanks.insert(k, t);
                assert(self.tanks@ =~= prev.update(k as int, self.tanks@[k as int]));
                assert(self.tanks@[k as int].product@ == product@);
                assert(self.tanks@[k as int].gauge == prev[k as int].gauge);
                assert(self.tanks@[k as int].warnings@ == prev[k as int].warnings@);
            }
            let ghost k0 = k as int;
            k = k + 1;
            assert forall|j: int| 0 <= j < n implies {
                &&& self.tanks@[j].gauge == start[j].gauge
                &&& self.tanks@[j].warnings@ == start[j].warnings@
                &&& self.tanks@[j].product@ == if j < k && (tank == 0 || tank == j + 1) {
                    product@
                } else {
                    start[j].product@
                }
            } by {
                if j != k0 {
                    assert(self.tanks@[j] == prev[j]);
                    assert(prev[j].gauge == start[j].gauge);
                    assert(prev[j].warnings@ == start[j].warnings@);
                    assert(j < k0 ==> (j < k) == (j < k0));
                } else if tank == 0 || tank == k0 + 1 {
                    assert(self.tanks@[j].product@ == product@);
                } else {
                    assert(self.tanks@[j] == prev[j]);
                }
            }
        }
        assert(relabelled(start, self.tanks@, tank as nat, product@));
        let rows = self.product_label_rows();
        proof {
            lemma_layout_columns();
            assert(rows_of_width(label_table(self.tank_list()), 2));
        }
        let s = render(LABEL_LAYOUT, LINE_END, &rows);
        Ok(text_bytes(&s))
    }

    /// The rows of the status report for selector `tank`.
    pub fn status_rows(&self, tank: usize) -> (r: Vec<Vec<String>>)
        ensures
            r.deep_view() == status_table(self.tank_list(), tank as nat),
    {
        let ghost tanks = self.tank_list();
        let mut rows: Vec<Vec<String>> = Vec::new();
        rows.push(status_heading_cells());
        let n = self.tanks.len();
        let mut k: usize = 0;
        while k < n
            invariant
                k <= n,
                n == tanks.len(),
                tanks == self.tank_list(),
                rows.deep_view() == seq![status_headings()] + status_blocks(
                    tanks,
                    chosen(k as nat, tank as nat),
                ),
            decreases n - k,
        {
            let ghost before = chosen(k as nat, tank as nat);
            if tank == 0 || tank == k + 1 {
                push_status_block(&mut rows, k + 1, &self.tanks[k]);
                assert(before.push((k + 1) as nat).drop_last() =~= before);
            }
            k = k + 1;
            assert(rows.deep_view() =~= seq![status_headings()] + status_blocks(
                tanks,
                chosen(k as nat, tank as nat),
            ));
        }
        rows
    }

    /// The status report for selector `tank`.
    pub fn i205(&self, tank: usize) -> (r: Vec<u8>)
        ensures
            r@ == encode_utf8(
                tabulated(STATUS_LAYOUT@, LINE_END@, status_table(self.tank_list(), tank as nat)),
            ),
    {
        let rows = self.status_rows(tank);
        proof {
            lemma_layout_columns();
            lemma_status_rows_width(self.tank_list(), chosen(self.tank_list().len(), tank as nat));
            assert(rows_of_width(seq![status_headings()], 3));
        }
        let s = render(STATUS_LAYOUT, LINE_END, &rows);
        text_bytes(&s)
    }
}

proof fn lemma_chosen(n: nat, sel: nat)
    ensures
        forall|p: nat| chosen(n, sel).contains(p) <==> (1 <= p <= n && (sel == 0 || p == sel)),
        forall|i: int, j: int|
            0 <= i < j < chosen(n, sel).len() ==> chosen(n, sel)[i] < chosen(n, sel)[j],
        forall|i: int| 0 <= i < chosen(n, sel).len() ==> 1 <= #[trigger] chosen(n, sel)[i] <= n,
        sel == 0 ==> chosen(n, sel).len() == n,
        sel == 0 ==> forall|i: int| 0 <= i < n ==> #[trigger] chosen(n, sel)[i] == i + 1,
    decreases n,
{
    if n > 0 {
        let m = (n - 1) as nat;
        lemma_chosen(m, sel);
        let prev = chosen(m, sel);
        if sel == 0 || sel == n {
            let cur = prev.push(n);
            assert forall|p: nat| cur.contains(p) <==> (1 <= p <= n && (sel == 0 || p == sel)) by {
                if p == n {
                    assert(cur[cur.len() - 1] == p);
                } else {
                    if cur.contains(p) {
                        let i = choose|i: int| 0 <= i < cur.len() && cur[i] == p;
                        assert(prev[i] == p);
                        assert(prev.contains(p));
                    }
                    if 1 <= p <= m && (sel == 0 || p == sel) {
                        assert(prev.contains(p));
                        let i = choose|i: int| 0 <= i < prev.len() && prev[i] == p;
                        assert(cur[i] == p);
                    }
                }
            }
        } else {
            assert forall|p: nat| prev.contains(p) <==> (1 <= p <= n && (sel == 0 || p == sel)) by {
                if p == n && prev.contains(p) {
                    let i = choose|i: int| 0 <= i < prev.len() && prev[i] == p;
                    assert(prev[i] <= m);
                }
            }
        }
    }
}

/// The inventory report for selector `sel` holds a row for exactly the tanks
/// that `sel` picks (every tank for 0, else the tank numbered `sel`), in
/// position order, after the headings.
pub proof fn lemma_inventory_selection(tanks: Seq<Tank>, sel: nat)
    ensures
        ({
            let ps = chosen(tanks.len(), sel);
            let rows = inventory_table(tanks, sel);
            &&& rows.len() == ps.len() + 1
            &&& rows[0] == inventory_headings()
            &&& forall|i: int| 0 <= i < ps.len() ==> rows[i + 1] == inventory_row(ps[i], tanks[ps[i] - 1])
            &&& forall|p: nat| ps.contains(p) <==> (1 <= p <= tanks.len() && (sel == 0 || p == sel))
            &&& forall|i: int, j: int| 0 <= i < j < ps.len() ==> ps[i] < ps[j]
        }),
{
    lemma_chosen(tanks.len(), sel);
}

/// After every tank's product label is set to `product` (selector 0), each
/// row of the inventory report of all tanks shows `product`.
pub proof fn lemma_label_all_then_inventory(before: Seq<Tank>, after: Seq<Tank>, product: Seq<char>)
    requires
        relabelled(before, after, 0, product),
    ensures
        inventory_table(after, 0).len() == after.len() + 1,
        forall|k: int| 0 <= k < after.len() ==> #[trigger] inventory_table(after, 0)[k + 1][1] == product,
{
    lemma_chosen(after.len(), 0);
    assert forall|k: int| 0 <= k < after.len() implies #[trigger] inventory_table(after, 0)[k + 1][1]
        == product by {
        assert(chosen(after.len(), 0)[k] == k + 1);
    }
}

proof fn lemma_inventory_rows_width(tanks: Seq<Tank>, sel: nat)
    ensures
        rows_of_width(inventory_table(tanks, sel), 8),
{
}

proof fn lemma_status_rows_width(tanks: Seq<Tank>, ps: Seq<nat>)
    ensures
        rows_of_width(status_blocks(tanks, ps), 3),
    decreases ps.len(),
{
    if ps.len() > 0 {
        lemma_status_rows_width(tanks, ps.drop_last());
        let t = tanks[ps.last() - 1];
        assert(rows_of_width(status_block(ps.last(), t), 3));
    }
}

} // verus!
