//! Text of an action: the short name of its op code followed by its fields.
use super::chunk::ChunkStep;
use super::copy_file::CopyFile;
use super::logic::Logic;
use super::permission_request::PermissionRequest;
use super::read_file_data::ReadFileDataRef;
use super::response_tag::ResponseTag;
use super::Action;
use crate::text::{decimal, flag_text, hex, push_decimal, push_flag, push_hex};
use crate::v1_2::operand::permission::Permission;
use vstd::prelude::*;

verus! {

/// Text of the group and response flags: `[GR]`, with a dash for a flag that is not set.
pub open spec fn flags_text(group: bool, response: bool) -> Seq<char> {
    "["@ + flag_text(group, "G"@) + flag_text(response, "R"@) + "]"@
}

/// Text of a file reference with the given arguments: `f(args)`.
pub open spec fn file_text(args: Seq<char>) -> Seq<char> {
    "f("@ + args + ")"@
}

/// Text of a file data action: `[GR]f(file,offset,0xDATA)`.
pub open spec fn file_data_text(
    group: bool,
    response: bool,
    file_id: u8,
    offset: u32,
    data: Seq<u8>,
) -> Seq<char> {
    flags_text(group, response) + file_text(
        decimal(file_id as nat) + ","@ + decimal(offset as nat) + ",0x"@ + hex(data),
    )
}

/// Text of an action on a single file: `[GR]f(file)`.
pub open spec fn file_id_text(group: bool, response: bool, file_id: u8) -> Seq<char> {
    flags_text(group, response) + file_text(decimal(file_id as nat))
}

/// Text of a read file data action: `[GR]f(file,offset,length)`.
pub open spec fn read_file_data_text(op: ReadFileDataRef) -> Seq<char> {
    flags_text(op.group, op.response) + file_text(
        decimal(op.file_id.0 as nat) + ","@ + decimal(op.offset@ as nat) + ","@ + decimal(
            op.length@ as nat,
        ),
    )
}

/// Text of a permission request: `[GR]level,D7:0xTOKEN`.
pub open spec fn permission_request_text(op: PermissionRequest) -> Seq<char> {
    match op.permission {
        Permission::Dash7(token) => flags_text(op.group, op.resp) + decimal(op.level as nat)
            + ",D7:0x"@ + hex(token@),
    }
}

/// Text of a copy file action: `[GR]f(source)f(destination)`.
pub open spec fn copy_file_text(op: CopyFile) -> Seq<char> {
    flags_text(op.group, op.resp) + file_text(decimal(op.src_file_id as nat)) + file_text(
        decimal(op.dst_file_id as nat),
    )
}

/// Text of a response tag: `[ER](id)`, with a dash for a flag that is not set.
pub open spec fn response_tag_text(op: ResponseTag) -> Seq<char> {
    "["@ + flag_text(op.eop, "E"@) + flag_text(op.err, "R"@) + "]("@ + decimal(op.id as nat)
        + ")"@
}

/// Text of a chunk step.
pub open spec fn chunk_text(step: ChunkStep) -> Seq<char> {
    match step {
        ChunkStep::Continue => "[C]"@,
        ChunkStep::Start => "[S]"@,
        ChunkStep::End => "[E]"@,
        ChunkStep::StartEnd => "[R]"@,
    }
}

/// Text of a logic operation.
pub open spec fn logic_text(op: Logic) -> Seq<char> {
    match op {
        Logic::Or => "[OR]"@,
        Logic::Xor => "[XOR]"@,
        Logic::Nor => "[NOR]"@,
        Logic::Nand => "[NAND]"@,
    }
}

impl<'data> Action<'data> {
    /// Text of the fields of the action, printed after the name of its op code; `None` for
    /// the actions that have no text: queries, statuses, indirect forwards and file
    /// properties actions.
    pub open spec fn spec_fields_text(self) -> Option<Seq<char>> {
        match self {
            Action::Nop(op) => Some(flags_text(op.group, op.response)),
            Action::ReadFileData(op) => Some(read_file_data_text(op)),
            Action::ReadFileProperties(op) => Some(
                file_id_text(op.group, op.response, op.file_id.0),
            ),
            Action::WriteFileData(op) => Some(
                file_data_text(op.group, op.response, op.file_id.0, op.offset@, op.data@),
            ),
            Action::ReturnFileData(op) => Some(
                file_data_text(op.group, op.response, op.file_id.0, op.offset@, op.data@),
            ),
            Action::PermissionRequest(op) => Some(permission_request_text(op)),
            Action::CopyFile(op) => Some(copy_file_text(op)),
            Action::ExistFile(op) => Some(file_id_text(op.group, op.resp, op.file_id)),
            Action::DeleteFile(op) => Some(file_id_text(op.group, op.resp, op.file_id)),
            Action::RestoreFile(op) => Some(file_id_text(op.group, op.resp, op.file_id)),
            Action::FlushFile(op) => Some(file_id_text(op.group, op.resp, op.file_id)),
            Action::ExecuteFile(op) => Some(file_id_text(op.group, op.resp, op.file_id)),
            Action::ResponseTag(op) => Some(response_tag_text(op)),
            Action::Chunk(op) => Some(chunk_text(op.step)),
            Action::Logic(op) => Some(logic_text(op)),
            _ => None,
        }
    }

    /// Text of the action: the short name of its op code, then the text of its fields.
    pub open spec fn spec_text(self) -> Option<Seq<char>> {
        match self.spec_fields_text() {
            Some(fields) => Some(self.spec_op_code().spec_name() + fields),
            None => None,
        }
    }

    /// Appends the text of the fields of the action to `s`; returns whether the action has one.
    fn push_fields(&self, s: &mut String) -> (r: bool)
        ensures
            r == self.spec_fields_text() is Some,
            r ==> final(s)@ == old(s)@ + self.spec_fields_text()->0,
            !r ==> final(s)@ == old(s)@,
    {
        match self {
            Action::Nop(op) => {
                push_flags(s, op.group, op.response);
            },
            Action::ReadFileData(op) => {
                push_read_file_data(s, op);
            },
            Action::ReadFileProperties(op) => {
                push_file_id(s, op.group, op.response, op.file_id.0);
            },
            Action::WriteFileData(op) => {
                push_file_data(s, op.group, op.response, op.file_id.0, op.offset.u32(), op.data.data());
            },
            Action::ReturnFileData(op) => {
                push_file_data(s, op.group, op.response, op.file_id.0, op.offset.u32(), op.data.data());
            },
            Action::PermissionRequest(op) => {
                push_permission_request(s, op);
            },
            Action::CopyFile(op) => {
                push_copy_file(s, op);
            },
            Action::ExistFile(op) => {
                push_file_id(s, op.group, op.resp, op.file_id);
            },
            Action::DeleteFile(op) => {
                push_file_id(s, op.group, op.resp, op.file_id);
            },
            Action::RestoreFile(op) => {
                push_file_id(s, op.group, op.resp, op.file_id);
            },
            Action::FlushFile(op) => {
                push_file_id(s, op.group, op.resp, op.file_id);
            },
            Action::ExecuteFile(op) => {
                push_file_id(s, op.group, op.resp, op.file_id);
            },
            Action::ResponseTag(op) => {
                push_response_tag(s, op);
            },
            Action::Chunk(op) => {
                push_chunk(s, op.step);
            },
            Action::Logic(op) => {
                push_logic(s, *op);
            },
            _ => {
                return false;
            },
        }
        true
    }

    /// The text of the action, as `spec_text` gives it; `None` for an action that has none.
    pub fn to_string(&self) -> (r: Option<String>)
        ensures
            r is Some <==> self.spec_text() is Some,
            r matches Some(s) ==> self.spec_text() == Some(s@),
    {
        let mut s = String::new();
        s.append(self.op_code().name());
        if self.push_fields(&mut s) {
            Some(s)
        } else {
            None
        }
    }
}

/// Appends the text of the group and response flags to `s`.
fn push_flags(s: &mut String, group: bool, response: bool)
    ensures
        final(s)@ == old(s)@ + flags_text(group, response),
{
    let ghost before = s@;
    s.append("[");
    push_flag(s, group, "G");
    push_flag(s, response, "R");
    s.append("]");
    assert(s@ =~= before + flags_text(group, response));
}

/// Appends the text of an action on a single file to `s`.
fn push_file_id(s: &mut String, group: bool, response: bool, file_id: u8)
    ensures
        final(s)@ == old(s)@ + file_id_text(group, response, file_id),
{
    let ghost before = s@;
    push_flags(s, group, response);
    s.append("f(");
    push_decimal(s, file_id as u32);
    s.append(")");
    assert(s@ =~= before + file_id_text(group, response, file_id));
}

/// Appends the text of a file data action to `s`.
fn push_file_data(s: &mut String, group: bool, response: bool, file_id: u8, offset: u32, data: &[u8])
    ensures
        final(s)@ == old(s)@ + file_data_text(group, response, file_id, offset, data@),
{
    let ghost before = s@;
    push_flags(s, group, response);
    s.append("f(");
    push_decimal(s, file_id as u32);
    s.append(",");
    push_decimal(s, offset);
    s.append(",0x");
    push_hex(s, data);
    s.append(")");
    assert(s@ =~= before + file_data_text(group, response, file_id, offset, data@));
}

/// Appends the text of a read file data action to `s`.
fn push_read_file_data(s: &mut String, op: &ReadFileDataRef)
    ensures
        final(s)@ == old(s)@ + read_file_data_text(*op),
{
    let ghost before = s@;
    push_flags(s, op.group, op.response);
    s.append("f(");
    push_decimal(s, op.file_id.0 as u32);
    s.append(",");
    push_decimal(s, op.offset.u32());
    s.append(",");
    push_decimal(s, op.length.u32());
    s.append(")");
    assert(s@ =~= before + read_file_data_text(*op));
}

/// Appends the text of a permission request to `s`.
fn push_permission_request(s: &mut String, op: &PermissionRequest)
    ensures
        final(s)@ == old(s)@ + permission_request_text(*op),
{
    let ghost before = s@;
    match &op.permission {
        Permission::Dash7(token) => {
            push_flags(s, op.group, op.resp);
            push_decimal(s, op.level as u32);
            s.append(",D7:0x");
            let bytes = token.as_slice();
            proof {
                vstd::array::axiom_spec_array_as_slice(token);
            }
            push_hex(s, bytes);
        },
    }
    assert(s@ =~= before + permission_request_text(*op));
}

/// Appends the text of a copy file action to `s`.
fn push_copy_file(s: &mut String, op: &CopyFile)
    ensures
        final(s)@ == old(s)@ + copy_file_text(*op),
{
    let ghost before = s@;
    push_flags(s, op.group, op.resp);
    s.append("f(");
    push_decimal(s, op.src_file_id as u32);
    s.append(")");
    s.append("f(");
    push_decimal(s, op.dst_file_id as u32);
    s.append(")");
    assert(s@ =~= before + copy_file_text(*op));
}

/// Appends the text of a response tag to `s`.
fn push_response_tag(s: &mut String, op: &ResponseTag)
    ensures
        final(s)@ == old(s)@ + response_tag_text(*op),
{
    let ghost before = s@;
    s.append("[");
    push_flag(s, op.eop, "E");
    push_flag(s, op.err, "R");
    s.append("](");
    push_decimal(s, op.id as u32);
    s.append(")");
    assert(s@ =~= before + response_tag_text(*op));
}

/// Appends the text of a chunk step to `s`.
fn push_chunk(s: &mut String, step: ChunkStep)
    ensures
        final(s)@ == old(s)@ + chunk_text(step),
{
    let text = match step {
        ChunkStep::Continue => "[C]",
        ChunkStep::Start => "[S]",
        ChunkStep::End => "[E]",
        ChunkStep::StartEnd => "[R]",
    };
    s.append(text);
}

/// Appends the text of a logic operation to `s`.
fn push_logic(s: &mut String, op: Logic)
    ensures
        final(s)@ == old(s)@ + logic_text(op),
{
    let text = match op {
        Logic::Or => "[OR]",
        Logic::Xor => "[XOR]",
        Logic::Nor => "[NOR]",
        Logic::Nand => "[NAND]",
    };
    s.append(text);
}

/// The pieces of the text of an action, character by character: the flags are an opening
/// bracket, `G` or a dash, `R` or a dash and a closing bracket; a file reference is `f(`, its
/// arguments and `)`; chunk steps print as `[C]`, `[S]`, `[E]`, `[R]` and logic operations as
/// `[OR]`, `[XOR]`, `[NOR]`, `[NAND]`.
pub proof fn lemma_text_pieces(group: bool, response: bool, args: Seq<char>)
    ensures
        flags_text(group, response) == seq![
            '[',
            if group { 'G' } else { '-' },
            if response { 'R' } else { '-' },
            ']',
        ],
        file_text(args) == seq!['f', '('] + args + seq![')'],
        chunk_text(ChunkStep::Continue) == seq!['[', 'C', ']'],
        chunk_text(ChunkStep::Start) == seq!['[', 'S', ']'],
        chunk_text(ChunkStep::End) == seq!['[', 'E', ']'],
        chunk_text(ChunkStep::StartEnd) == seq!['[', 'R', ']'],
        logic_text(Logic::Or) == seq!['[', 'O', 'R', ']'],
        logic_text(Logic::Xor) == seq!['[', 'X', 'O', 'R', ']'],
        logic_text(Logic::Nor) == seq!['[', 'N', 'O', 'R', ']'],
        logic_text(Logic::Nand) == seq!['[', 'N', 'A', 'N', 'D', ']'],
{
    reveal_strlit("[");
    reveal_strlit("]");
    reveal_strlit("G");
    reveal_strlit("R");
    reveal_strlit("-");
    reveal_strlit("f(");
    reveal_strlit(")");
    reveal_strlit("[C]");
    reveal_strlit("[S]");
    reveal_strlit("[E]");
    reveal_strlit("[R]");
    reveal_strlit("[OR]");
    reveal_strlit("[XOR]");
    reveal_strlit("[NOR]");
    reveal_strlit("[NAND]");
    assert(flags_text(group, response) =~= seq![
        '[',
        if group { 'G' } else { '-' },
        if response { 'R' } else { '-' },
        ']',
    ]);
    assert(file_text(args) =~= seq!['f', '('] + args + seq![')']);
}

/// The separators of the texts with several fields: a file data action is its flags, then
/// `f(`, file, `,`, offset, `,0x`, data in hexadecimal and `)`; a read file data action is its
/// flags then `f(`, file, `,`, offset, `,`, length and `)`; a permission request is its flags,
/// level, `,D7:0x` and token in hexadecimal; a copy is its flags then `f(source)f(destination)`;
/// a response tag is `[`, `E` or a dash, `R` or a dash, `](`, its identifier and `)`.
pub proof fn lemma_text_separators(
    group: bool,
    response: bool,
    file_id: u8,
    offset: u32,
    data: Seq<u8>,
    pr: PermissionRequest,
    cp: CopyFile,
    tag: ResponseTag,
)
    ensures
        file_data_text(group, response, file_id, offset, data) == flags_text(group, response)
            + seq!['f', '('] + decimal(file_id as nat) + seq![','] + decimal(offset as nat)
            + seq![',', '0', 'x'] + hex(data) + seq![')'],
        pr.permission matches Permission::Dash7(token) ==> permission_request_text(pr)
            == flags_text(pr.group, pr.resp) + decimal(pr.level as nat) + seq![
            ',',
            'D',
            '7',
            ':',
            '0',
            'x',
        ] + hex(token@),
        copy_file_text(cp) == flags_text(cp.group, cp.resp) + seq!['f', '('] + decimal(
            cp.src_file_id as nat,
        ) + seq![')', 'f', '('] + decimal(cp.dst_file_id as nat) + seq![')'],
        response_tag_text(tag) == seq![
            '[',
            if tag.eop { 'E' } else { '-' },
            if tag.err { 'R' } else { '-' },
            ']',
            '(',
        ] + decimal(tag.id as nat) + seq![')'],
{
    reveal_strlit("f(");
    reveal_strlit(")");
    reveal_strlit(",");
    reveal_strlit(",0x");
    reveal_strlit(",D7:0x");
    reveal_strlit("[");
    reveal_strlit("E");
    reveal_strlit("R");
    reveal_strlit("-");
    reveal_strlit("](");
    assert(file_data_text(group, response, file_id, offset, data) =~= flags_text(group, response)
        + seq!['f', '('] + decimal(file_id as nat) + seq![','] + decimal(offset as nat) + seq![
        ',',
        '0',
        'x',
    ] + hex(data) + seq![')']);
    match pr.permission {
        Permission::Dash7(token) => {
            assert(permission_request_text(pr) =~= flags_text(pr.group, pr.resp) + decimal(
                pr.level as nat,
            ) + seq![',', 'D', '7', ':', '0', 'x'] + hex(token@));
        },
    }
    assert(copy_file_text(cp) =~= flags_text(cp.group, cp.resp) + seq!['f', '('] + decimal(
        cp.src_file_id as nat,
    ) + seq![')', 'f', '('] + decimal(cp.dst_file_id as nat) + seq![')']);
    assert(response_tag_text(tag) =~= seq![
        '[',
        if tag.eop { 'E' } else { '-' },
        if tag.err { 'R' } else { '-' },
        ']',
        '(',
    ] + decimal(tag.id as nat) + seq![')']);
}

} // verus!
