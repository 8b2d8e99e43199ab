use core::fmt::Write;

use flexstr::builder::{FlexStrBuilder, StringBuffer, BUFFER_SIZE};
use flexstr::custom::STRING_SIZED_INLINE;
use flexstr::{FlexStrCore, LocalStr};

#[test]
fn string_buffer() {
    // Write 1
    let write1 = "test";
    let mut buffer = StringBuffer::<STRING_SIZED_INLINE, BUFFER_SIZE>::new();
    assert!(buffer.is_empty());
    assert!(buffer.write(write1));
    assert_eq!(buffer.len(), write1.len());
    assert_eq!(&*buffer, write1);

    // Try write 2 - not large enough
    let write2 = "x".repeat(BUFFER_SIZE);
    assert!(!buffer.write(&write2));
    assert_eq!(buffer.len(), write1.len());
    assert_eq!(&*buffer, write1.to_string());

    // Promote to string buffer and ensure contents are copied
    let mut buffer = buffer.to_string_buffer(write1.len() + write2.len());
    assert_eq!(buffer.len(), write1.len());
    assert_eq!(&*buffer, write1.to_string());

    // Retry write 2
    assert!(buffer.write_str(&write2).is_ok());
    assert_eq!(buffer.len(), write1.len() + write2.len());
    assert_eq!(&*buffer, write1.to_string() + &write2);
}

#[test]
fn flex_str_builder_promotion() {
    // Write 1 - verify inline buffer size
    let mut buffer = StringBuffer::<STRING_SIZED_INLINE, BUFFER_SIZE>::new();
    let mut builder = FlexStrBuilder::new(&mut buffer);
    assert!(matches!(builder, FlexStrBuilder::InlineBuffer(_)));
    let write = "This should fit easily in our buffer";
    assert!(builder.write_str(write).is_ok());
    assert!(matches!(builder, FlexStrBuilder::InlineBuffer(_)));

    // Write 2
    let write2 = "x".repeat(BUFFER_SIZE);
    assert!(builder.write_str(&write2).is_ok());
    assert!(matches!(builder, FlexStrBuilder::StringBuffer(_)));
    let s: LocalStr = builder.into_flex_str();
    assert!(s == (write.to_string() + &write2).as_str());
    assert!(s.is_heap());
}

#[test]
fn builder_short_output_is_inline() {
    let mut buffer = StringBuffer::<STRING_SIZED_INLINE, BUFFER_SIZE>::new();
    let mut builder = FlexStrBuilder::new(&mut buffer);
    builder.str_write("Is ");
    builder.str_write("inline");
    let s: LocalStr = builder.into_flex_str();
    assert!(s.is_inline());
    assert!(s == "Is inline");
}

#[test]
fn builder_medium_output_goes_to_heap_from_buffer() {
    let mut buffer = StringBuffer::<STRING_SIZED_INLINE, BUFFER_SIZE>::new();
    let mut builder = FlexStrBuilder::new(&mut buffer);
    builder.str_write("This is too long too be inlined!");
    assert!(matches!(builder, FlexStrBuilder::InlineBuffer(_)));
    let s: LocalStr = builder.into_flex_str();
    assert!(s.is_heap());
    assert!(s == "This is too long too be inlined!");
}

#[test]
fn builder_empty_output_is_inline() {
    let mut buffer = StringBuffer::<STRING_SIZED_INLINE, BUFFER_SIZE>::new();
    let builder = FlexStrBuilder::new(&mut buffer);
    let s: LocalStr = builder.into_flex_str();
    assert!(s.is_inline());
    assert_eq!(s.len(), 0);
}

#[test]
fn builder_char_write() {
    let mut buffer = StringBuffer::<STRING_SIZED_INLINE, BUFFER_SIZE>::new();
    let mut builder = FlexStrBuilder::new(&mut buffer);
    builder.char_write('a');
    builder.char_write('é');
    builder.char_write('☃');
    let s: LocalStr = builder.into_flex_str();
    assert!(s == "aé☃");
    assert_eq!(s.len(), 1 + 2 + 3);
}

#[test]
fn builder_with_capacity_picks_buffer() {
    let mut buffer = StringBuffer::<STRING_SIZED_INLINE, BUFFER_SIZE>::new();
    let builder = FlexStrBuilder::with_capacity(&mut buffer, BUFFER_SIZE);
    assert!(matches!(builder, FlexStrBuilder::InlineBuffer(_)));
    let mut buffer2 = StringBuffer::<STRING_SIZED_INLINE, BUFFER_SIZE>::new();
    let mut builder2 = FlexStrBuilder::with_capacity(&mut buffer2, BUFFER_SIZE + 1);
    assert!(matches!(builder2, FlexStrBuilder::StringBuffer(_)));
    builder2.str_write("ab");
    let s: LocalStr = builder2.into_flex_str();
    assert!(s == "ab");
    assert!(s.is_inline());
}

#[test]
fn string_buffer_fills_exactly_to_capacity() {
    let mut buffer = StringBuffer::<4, 8>::new();
    assert_eq!(StringBuffer::<4, 8>::capacity(), 8);
    assert!(buffer.write("abcd"));
    assert!(buffer.is_inline_candidate());
    assert!(buffer.write("efgh"));
    assert!(!buffer.is_inline_candidate());
    assert!(!buffer.write("i"));
    assert_eq!(&*buffer, "abcdefgh");
    assert_eq!(buffer.into_inner(), *b"abcd");
}

#[test]
fn string_buffer_into_inner_holds_short_contents() {
    let mut buffer = StringBuffer::<4, 8>::new();
    assert!(buffer.write("ab"));
    let inline = buffer.into_inner();
    assert_eq!(&inline[..2], b"ab");
}

#[test]
fn string_buffer_keeps_only_writes_that_fit() {
    let mut buffer = StringBuffer::<4, 6>::new();
    let writes = ["ab", "cdef", "cd", "xyz", "e", "fg", "f"];
    let mut accepted = String::new();
    for w in writes {
        if buffer.write(w) {
            accepted.push_str(w);
        }
        assert!(buffer.len() <= StringBuffer::<4, 6>::capacity());
    }
    assert_eq!(accepted, "abcdef");
    assert_eq!(&*buffer, "abcdef");
    assert_eq!(buffer.len(), 6);
}
